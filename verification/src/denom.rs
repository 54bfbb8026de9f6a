//! The name of a token-factory denom: the text `factory/{owner}/{subdenom}`,
//! how it is written and how it is read back.

use crate::text::{find_char, free_of, same_text};
use vstd::prelude::*;
use vstd::string::*;

verus! {

/// The owner and the subdenom of a factory denom.
pub struct DenomView {
    pub owner: Seq<char>,
    pub subdenom: Seq<char>,
}

/// The name of the denom that `owner` created as `subdenom`.
pub open spec fn denom_text(owner: Seq<char>, subdenom: Seq<char>) -> Seq<char> {
    "factory/"@ + owner + "/"@ + subdenom
}

/// Whether `s` names the denom that `owner` created as `subdenom`: three
/// segments between slashes, the first of them `factory`.
pub open spec fn names_denom(s: Seq<char>, owner: Seq<char>, subdenom: Seq<char>) -> bool {
    &&& free_of(owner, '/')
    &&& free_of(subdenom, '/')
    &&& s == denom_text(owner, subdenom)
}

/// The owner and the subdenom that `s` names, if it names a factory denom.
pub open spec fn denom_parts(s: Seq<char>) -> Option<DenomView> {
    if exists|owner: Seq<char>, subdenom: Seq<char>| names_denom(s, owner, subdenom) {
        let (owner, subdenom) = choose|owner: Seq<char>, subdenom: Seq<char>|
            names_denom(s, owner, subdenom);
        Some(DenomView { owner, subdenom })
    } else {
        None
    }
}

/// Where the slashes of a denom's name stand, and what stands between them.
pub proof fn lemma_denom_shape(owner: Seq<char>, subdenom: Seq<char>)
    requires
        free_of(owner, '/'),
        free_of(subdenom, '/'),
    ensures
        denom_text(owner, subdenom).len() == 9 + owner.len() + subdenom.len(),
        denom_text(owner, subdenom).subrange(0, 7) == "factory"@,
        denom_text(owner, subdenom).subrange(8, 8 + owner.len() as int) == owner,
        denom_text(owner, subdenom).subrange(
            9 + owner.len() as int,
            9 + owner.len() + subdenom.len() as int,
        ) == subdenom,
        forall|k: int|
            0 <= k < denom_text(owner, subdenom).len() ==> (denom_text(owner, subdenom)[k] == '/'
                <==> (k == 7 || k == 8 + owner.len())),
{
    reveal_strlit("factory/");
    reveal_strlit("factory");
    reveal_strlit("/");
    let s = denom_text(owner, subdenom);
    assert(s.len() == 9 + owner.len() + subdenom.len());
    assert(s.subrange(0, 7) =~= "factory"@);
    assert(s.subrange(8, 8 + owner.len() as int) =~= owner);
    assert(s.subrange(9 + owner.len() as int, 9 + owner.len() + subdenom.len() as int)
        =~= subdenom);
    assert forall|k: int| 0 <= k < s.len() implies (s[k] == '/' <==> (k == 7 || k == 8
        + owner.len())) by {
        if k < 8 {
            assert(s[k] == "factory/"@[k]);
        } else if k < 8 + owner.len() {
            assert(s[k] == owner[k - 8]);
        } else if k == 8 + owner.len() {
            assert(s[k] == "/"@[0]);
        } else {
            assert(s[k] == subdenom[k - 9 - owner.len()]);
        }
    }
}

/// A name names at most one denom.
pub proof fn lemma_denom_unique(
    s: Seq<char>,
    owner1: Seq<char>,
    subdenom1: Seq<char>,
    owner2: Seq<char>,
    subdenom2: Seq<char>,
)
    requires
        names_denom(s, owner1, subdenom1),
        names_denom(s, owner2, subdenom2),
    ensures
        owner1 == owner2,
        subdenom1 == subdenom2,
{
    lemma_denom_shape(owner1, subdenom1);
    lemma_denom_shape(owner2, subdenom2);
    assert(s[8 + owner1.len() as int] == '/');
    assert(s[8 + owner2.len() as int] == '/');
    assert(owner1.len() == owner2.len());
}

/// Reading a name gives the owner and the subdenom that it was written from.
pub proof fn lemma_parts_of_name(s: Seq<char>, owner: Seq<char>, subdenom: Seq<char>)
    requires
        names_denom(s, owner, subdenom),
    ensures
        denom_parts(s) == Some(DenomView { owner, subdenom }),
{
    let (o, d) = choose|o: Seq<char>, d: Seq<char>| names_denom(s, o, d);
    lemma_denom_unique(s, owner, subdenom, o, d);
}

/// Writes the name of the denom that `owner` created as `subdenom`.
pub fn format_denom(owner: &str, subdenom: &str) -> (s: String)
    ensures
        s@ == denom_text(owner@, subdenom@),
{
    String::from_str("factory/").concat(owner).concat("/").concat(subdenom)
}

/// Reads the owner and the subdenom out of the name of a factory denom.
/// A text that is not such a name gives nothing.
pub fn parse_denom(denom: &str) -> (r: Option<(String, String)>)
    ensures
        match denom_parts(denom@) {
            Some(parts) => r is Some && r->Some_0.0@ == parts.owner && r->Some_0.1@
                == parts.subdenom,
            None => r is None,
        },
{
    let ghost s = denom@;
    proof {
        assert forall|o: Seq<char>, d: Seq<char>| names_denom(s, o, d) implies s.len() == 9
            + o.len() + d.len() && s.subrange(0, 7) == "factory"@ && (forall|k: int|
            0 <= k < s.len() ==> (s[k] == '/' <==> (k == 7 || k == 8 + o.len()))) by {
            lemma_denom_shape(o, d);
        }
    }
    let n: usize = denom.unicode_len();
    let first = match find_char(denom, '/', 0) {
        Some(i) => i,
        None => {
            proof {
                assert forall|o: Seq<char>, d: Seq<char>| !names_denom(s, o, d) by {
                    if names_denom(s, o, d) {
                        assert(s[7] == '/');
                    }
                }
            }
            return None;
        },
    };
    let second = match find_char(denom, '/', first + 1) {
        Some(i) => i,
        None => {
            proof {
                assert forall|o: Seq<char>, d: Seq<char>| !names_denom(s, o, d) by {
                    if names_denom(s, o, d) {
                        assert(s[7] == '/');
                        assert(s[8 + o.len() as int] == '/');
                    }
                }
            }
            return None;
        },
    };
    if find_char(denom, '/', second + 1).is_some() {
        return None;
    }
    let head = denom.substring_char(0, first);
    if !same_text(head, "factory") {
        proof {
            assert forall|o: Seq<char>, d: Seq<char>| !names_denom(s, o, d) by {
                if names_denom(s, o, d) {
                    assert(s[7] == '/');
                    assert(first == 7);
                }
            }
        }
        return None;
    }
    let owner = denom.substring_char(first + 1, second).to_owned();
    let subdenom = denom.substring_char(second + 1, n).to_owned();
    proof {
        reveal_strlit("factory/");
        reveal_strlit("factory");
        reveal_strlit("/");
        assert(s.subrange(0, first as int) == "factory"@);
        assert(s.subrange(0, first as int).len() == 7);
        assert(first == 7);
        assert forall|k: int| 0 <= k < 7 implies s[k] == "factory"@[k] by {
            assert(s[k] == s.subrange(0, first as int)[k]);
        }
        assert(owner@ == s.subrange(first + 1, second as int));
        assert(subdenom@ == s.subrange(second + 1, n as int));
        assert(s.len() == denom_text(owner@, subdenom@).len());
        assert forall|k: int| 0 <= k < s.len() implies s[k] == denom_text(
            owner@,
            subdenom@,
        )[k] by {
            if k < 7 {
            } else if k == 7 {
            } else if k < second {
                assert(owner@[k - 8] == s[k]);
            } else if k == second {
            } else {
                assert(subdenom@[k - second - 1] == s[k]);
            }
        }
        assert(s =~= denom_text(owner@, subdenom@));
        assert(names_denom(s, owner@, subdenom@));
        lemma_parts_of_name(s, owner@, subdenom@);
    }
    Some((owner, subdenom))
}

} // verus!
