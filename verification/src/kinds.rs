//! Two ready-made identifier kinds. `UserId` shows a kind with a legacy
//! alias prefix; `OrderId` shows a plain one. They double as the worked
//! examples of the crate's documentation and tests; a crate of domain
//! entities defines its own kinds the same way.

use vstd::prelude::*;

use crate::engine::lemma_distinct_tags_distinct_ids;
use crate::engine::plain_prefix;
use crate::engine::prefix_views;
use crate::engine::tagged;
use crate::typed::PrefixedId;
use crate::typed::TypedId;

verus! {

/// The kind of user identifiers: minted under `usr`, with the legacy
/// prefix `user` still accepted on parse.
#[derive(Debug)]
pub struct UserKind;

impl PrefixedId for UserKind {
    open spec fn spec_prefixes() -> Seq<Seq<char>> {
        seq!["usr"@, "user"@]
    }

    open spec fn spec_type_name() -> Seq<char> {
        "UserId"@
    }

    proof fn prefixes_wf() {
        reveal_strlit("usr");
        reveal_strlit("user");
        assert forall|i: int|
            0 <= i < Self::spec_prefixes().len() implies (
        #[trigger] Self::spec_prefixes()[i]).len() <= 4 by {
            if i == 0 {
                assert(Self::spec_prefixes()[0] == "usr"@);
            } else {
                assert(Self::spec_prefixes()[1] == "user"@);
            }
        }
    }

    fn accepted_prefixes() -> (ps: Vec<String>) {
        let mut ps: Vec<String> = Vec::new();
        ps.push(String::from_str("usr"));
        ps.push(String::from_str("user"));
        proof {
            assert(prefix_views(ps@) =~= Self::spec_prefixes());
        }
        ps
    }

    fn display_name() -> (n: String) {
        String::from_str("UserId")
    }

    fn id_prefix() -> (p: String) {
        String::from_str("usr")
    }
}

/// A user identifier: `usr_` followed by a random suffix.
pub type UserId = TypedId<UserKind>;

/// The kind of order identifiers: minted under `ord`, no aliases.
#[derive(Debug)]
pub struct OrderKind;

impl PrefixedId for OrderKind {
    open spec fn spec_prefixes() -> Seq<Seq<char>> {
        seq!["ord"@]
    }

    open spec fn spec_type_name() -> Seq<char> {
        "OrderId"@
    }

    proof fn prefixes_wf() {
        reveal_strlit("ord");
        assert forall|i: int|
            0 <= i < Self::spec_prefixes().len() implies (
        #[trigger] Self::spec_prefixes()[i]).len() <= 4 by {
            assert(Self::spec_prefixes()[0] == "ord"@);
        }
    }

    fn accepted_prefixes() -> (ps: Vec<String>) {
        let mut ps: Vec<String> = Vec::new();
        ps.push(String::from_str("ord"));
        proof {
            assert(prefix_views(ps@) =~= Self::spec_prefixes());
        }
        ps
    }

    fn display_name() -> (n: String) {
        String::from_str("OrderId")
    }

    fn id_prefix() -> (p: String) {
        String::from_str("ord")
    }
}

/// An order identifier: `ord_` followed by a random suffix.
pub type OrderId = TypedId<OrderKind>;

/// A user identifier and an order identifier never even share a string
/// form: whatever the random suffixes, a string minted under `usr` differs
/// from one minted under `ord` — and the two are distinct Rust types, so no
/// operation compares them as the same kind in the first place.
pub proof fn lemma_user_never_order(u: Seq<char>, o: Seq<char>)
    requires
        tagged(u, UserKind::spec_prefixes()[0]),
        tagged(o, OrderKind::spec_prefixes()[0]),
    ensures
        u != o,
{
    reveal_strlit("usr");
    reveal_strlit("ord");
    assert(plain_prefix("usr"@)) by {
        assert forall|i: int| 0 <= i < "usr"@.len() implies "usr"@[i] != '_' by {
            if i == 0 {
            } else if i == 1 {
            } else {
                assert("usr"@[2] == 'r');
            }
        }
    }
    assert(plain_prefix("ord"@)) by {
        assert forall|i: int| 0 <= i < "ord"@.len() implies "ord"@[i] != '_' by {
            if i == 0 {
            } else if i == 1 {
            } else {
                assert("ord"@[2] == 'd');
            }
        }
    }
    assert("usr"@ != "ord"@) by {
        assert("usr"@[0] == 'u' && "ord"@[0] == 'o');
    }
    lemma_distinct_tags_distinct_ids(u, "usr"@, o, "ord"@);
}

} // verus!
