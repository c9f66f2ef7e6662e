//! The layout of the session table: each item holds the session's identifier
//! under `sessid` and the session, written as JSON, under `session`.

use vstd::prelude::*;
use crate::session::opt_string_view;

verus! {

/// An item of the table: attribute names and their string values, if any.
/// In a stored item no attribute name repeats (see `names_distinct`): the
/// items built here have that shape, and on such an item the order of the
/// attributes does not matter to `stored_payload`.
pub type Item = Vec<(String, Option<String>)>;

/// No attribute name occurs twice in the item.
pub open spec fn names_distinct(item: Seq<(Seq<char>, Option<Seq<char>>)>) -> bool {
    forall|i: int, j: int| 0 <= i < j < item.len() ==> #[trigger] item[i].0 != #[trigger] item[j].0
}

/// An item as values.
pub open spec fn item_view(item: Item) -> Seq<(Seq<char>, Option<Seq<char>>)> {
    item@.map_values(
        |a: (String, Option<String>)|
(a.0@, opt_string_view(a.1)),
    )
}

/// `"session"`: the table's name, and the attribute that holds the session.
pub open spec fn spec_session_attr() -> Seq<char> {
    seq!['s', 'e', 's', 's', 'i', 'o', 'n']
}

/// `"sessid"`: the attribute that holds the session's identifier, the table's key.
pub open spec fn spec_sessid_attr() -> Seq<char> {
    seq!['s', 'e', 's', 's', 'i', 'd']
}

/// The name of the session table.
pub fn session_table() -> (name: String)
    ensures
        name@ == spec_session_attr(),
{
    session_attr()
}

fn session_attr() -> (name: String)
    ensures
        name@ == spec_session_attr(),
{
    let name = String::from_str("session");
    proof {
        reveal_strlit("session");
        assert(name@ =~= spec_session_attr());
    }
    name
}

fn sessid_attr() -> (name: String)
    ensures
        name@ == spec_sessid_attr(),
{
    let name = String::from_str("sessid");
    proof {
        reveal_strlit("sessid");
        assert(name@ =~= spec_sessid_attr());
    }
    name
}

/// The key that finds, or deletes, the item of the session `sessid`.
pub fn session_key(sessid: &String) -> (key: Item)
    ensures
        item_view(key) == seq![(spec_sessid_attr(), Some(sessid@))],
        names_distinct(item_view(key)),
{
    let mut key: Item = Vec::new();
    key.push((sessid_attr(), Some(sessid.clone())));
    assert(item_view(key) =~= seq![(spec_sessid_attr(), Some(sessid@))]);
    key
}

/// The item that stores the session `sessid`, written as `payload`.
pub fn session_item(sessid: &String, payload: String) -> (item: Item)
    ensures
        item_view(item) == seq![
            (spec_sessid_attr(), Some(sessid@)),
            (spec_session_attr(), Some(payload@)),
        ],
        names_distinct(item_view(item)),
{
    let mut item: Item = Vec::new();
    item.push((sessid_attr(), Some(sessid.clone())));
    item.push((session_attr(), Some(payload)));
    assert(item_view(item) =~= seq![
        (spec_sessid_attr(), Some(sessid@)),
        (spec_session_attr(), Some(payload@)),
    ]);
    assert(spec_sessid_attr() != spec_session_attr()) by {
        assert(spec_sessid_attr().len() != spec_session_attr().len());
    }
    item
}

/// The written session that an item holds: the value of its first `session`
/// attribute, if the item has one and it is a string.
pub open spec fn spec_stored_payload(item: Seq<(Seq<char>, Option<Seq<char>>)>) -> Option<
    Seq<char>,
>
    decreases item.len(),
{
    if item.len() == 0 {
        None
    } else if item[0].0 == spec_session_attr() {
        item[0].1
    } else {
        spec_stored_payload(item.drop_first())
    }
}

/// The value of the attribute named `"session"` in an item whose names do
/// not repeat, wherever it stands: its value if there is one, else none.
pub proof fn payload_of_distinct_item(item: Seq<(Seq<char>, Option<Seq<char>>)>, k: int)
    requires
        names_distinct(item),
        0 <= k < item.len(),
        item[k].0 == spec_session_attr(),
    ensures
        spec_stored_payload(item) == item[k].1,
    decreases item.len(),
{
    if k > 0 {
        let rest = item.drop_first();
        assert forall|i: int, j: int| 0 <= i < j < rest.len() implies #[trigger] rest[i].0
            != #[trigger] rest[j].0 by {
            assert(rest[i] == item[i + 1] && rest[j] == item[j + 1]);
        }
        assert(rest[k - 1] == item[k]);
        assert(item[0].0 != item[k].0);
        payload_of_distinct_item(rest, k - 1);
    }
}

/// Reads the written session out of the item that a lookup returned, if any.
pub fn stored_payload(item: Option<Item>) -> (payload: Option<String>)
    ensures
        opt_string_view(payload) == match item {
            Some(i) => spec_stored_payload(item_view(i)),
            None => None,
        },
        match item {
            Some(i) => names_distinct(item_view(i)) ==> forall|k: int|
                0 <= k < item_view(i).len() && #[trigger] item_view(i)[k].0 == spec_session_attr()
                    ==> opt_string_view(payload) == item_view(i)[k].1,
            None => true,
        },
{
    proof {
        if item is Some {
            let i = item->0;
            if names_distinct(item_view(i)) {
                assert forall|k: int|
                    0 <= k < item_view(i).len() && #[trigger] item_view(i)[k].0 == spec_session_attr()
                    implies spec_stored_payload(item_view(i)) == item_view(i)[k].1 by {
                    payload_of_distinct_item(item_view(i), k);
                }
            }
        }
    }
    match item {
        None => None,
        Some(attrs) => {
            let wanted = session_attr();
            let n = attrs.len();
            let mut k: usize = 0;
            assert(item_view(attrs).skip(0) =~= item_view(attrs));
            while k < n
                invariant
                    n == attrs@.len(),
                    k <= n,
                    item == Some(attrs),
                    wanted@ == spec_session_attr(),
                    spec_stored_payload(item_view(attrs)) == spec_stored_payload(
                        item_view(attrs).skip(k as int),
                    ),
                decreases n - k,
            {
                assert(item_view(attrs).skip(k as int).drop_first() =~= item_view(attrs).skip(
                    k + 1,
                ));
                assert(item_view(attrs).skip(k as int)[0] == item_view(attrs)[k as int]);
                if attrs[k].0 == wanted {
                    assert(item_view(attrs)[k as int].0 == attrs@[k as int].0@);
                    assert(item_view(attrs)[k as int].1 == opt_string_view(attrs@[k as int].1));
                    assert(spec_stored_payload(item_view(attrs).skip(k as int)) == opt_string_view(
                        attrs@[k as int].1,
                    ));
                    let found: Option<String> = match &attrs[k].1 {
                        Some(v) => Some(v.clone()),
                        None => None,
                    };
                    assert(opt_string_view(found) == opt_string_view(attrs@[k as int].1));
                    return found;
                }
                k = k + 1;
            }
            None
        },
    }
}

/// What is written for a session is what a lookup of it reads back.
pub proof fn stored_payload_reads_back_written_item(sessid: Seq<char>, payload: Seq<char>)
    ensures
        spec_stored_payload(
            seq![(spec_sessid_attr(), Some(sessid)), (spec_session_attr(), Some(payload))],
        ) == Some(payload),
{
    let item = seq![(spec_sessid_attr(), Some(sessid)), (spec_session_attr(), Some(payload))];
    assert(spec_sessid_attr() != spec_session_attr()) by {
        assert(spec_sessid_attr().len() != spec_session_attr().len());
    }
    let rest = seq![(spec_session_attr(), Some(payload))];
    assert(item.drop_first() =~= rest);
    assert(rest[0].0 == spec_session_attr());
    assert(spec_stored_payload(rest) == Some(payload));
    assert(item[0].0 != spec_session_attr());
}

} // verus!
