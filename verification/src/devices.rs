//! Audio output devices, known by the names the audio host reports.

use crate::config::opt_view;
use vstd::prelude::*;

verus! {

/// The names of the devices that reported one, in the host's order.
pub open spec fn usable_names(reported: Seq<Option<String>>) -> Seq<Seq<char>>
    decreases reported.len(),
{
    if reported.len() == 0 {
        Seq::empty()
    } else {
        let rest = usable_names(reported.drop_last());
        match reported.last() {
            Some(n) => rest.push(n@),
            None => rest,
        }
    }
}

/// `idx` lists, in increasing order, exactly the positions of the devices
/// that reported a name.
pub open spec fn lists_named_positions(idx: Seq<int>, reported: Seq<Option<String>>) -> bool {
    &&& forall|j: int| 0 <= j < idx.len() ==> 0 <= #[trigger] idx[j] < reported.len() && reported[idx[j]] is Some
    &&& forall|j: int, k: int| 0 <= j < k < idx.len() ==> #[trigger] idx[j] < #[trigger] idx[k]
    &&& forall|i: int| 0 <= i < reported.len() && (#[trigger] reported[i]) is Some ==> exists|j: int|
        0 <= j < idx.len() && idx[j] == i
}

proof fn named_positions(reported: Seq<Option<String>>) -> (idx: Seq<int>)
    ensures
        lists_named_positions(idx, reported),
        idx.len() == usable_names(reported).len(),
        forall|j: int| 0 <= j < idx.len() ==> Some(usable_names(reported)[j]) == opt_view(reported[#[trigger] idx[j]]),
    decreases reported.len(),
{
    if reported.len() == 0 {
        Seq::empty()
    } else {
        let n = reported.len() - 1;
        let rd = reported.drop_last();
        let prev = named_positions(rd);
        assert forall|j: int| 0 <= j < prev.len() implies 0 <= #[trigger] prev[j] < n && reported[prev[j]] is Some by {
            assert(rd[prev[j]] == reported[prev[j]]);
        }
        match reported.last() {
            None => {
                assert forall|i: int| 0 <= i < reported.len() && (#[trigger] reported[i]) is Some implies exists|j: int|
                    0 <= j < prev.len() && prev[j] == i by {
                    assert(i < n);
                    assert(rd[i] == reported[i]);
                }
                assert forall|j: int| 0 <= j < prev.len() implies Some(usable_names(reported)[j]) == opt_view(reported[#[trigger] prev[j]]) by {
                    assert(rd[prev[j]] == reported[prev[j]]);
                }
                prev
            },
            Some(_) => {
                let idx = prev.push(n);
                assert forall|j: int| 0 <= j < idx.len() implies 0 <= #[trigger] idx[j] < reported.len()
                    && reported[idx[j]] is Some by {
                    if j < prev.len() {
                        assert(idx[j] == prev[j]);
                    }
                }
                assert forall|j: int, k: int| 0 <= j < k < idx.len() implies #[trigger] idx[j] < #[trigger] idx[k] by {
                    if k < prev.len() {
                        assert(idx[j] == prev[j] && idx[k] == prev[k]);
                    } else {
                        assert(idx[j] == prev[j]);
                    }
                }
                assert forall|i: int| 0 <= i < reported.len() && (#[trigger] reported[i]) is Some implies exists|j: int|
                    0 <= j < idx.len() && idx[j] == i by {
                    if i < n {
                        assert(rd[i] == reported[i]);
                        let j = choose|j: int| 0 <= j < prev.len() && prev[j] == i;
                        assert(idx[j] == i);
                    } else {
                        assert(idx[prev.len() as int] == i);
                    }
                }
                assert forall|j: int| 0 <= j < idx.len() implies Some(usable_names(reported)[j]) == opt_view(reported[#[trigger] idx[j]]) by {
                    if j < prev.len() {
                        assert(idx[j] == prev[j]);
                        assert(rd[prev[j]] == reported[prev[j]]);
                    }
                }
                idx
            },
        }
    }
}

/// The device list holds one name per device that reported one, in the
/// host's order: the names are those of the devices at the increasing list of
/// all positions with a name, and every such device is listed.
pub proof fn lists_every_named_device(reported: Seq<Option<String>>)
    ensures
        exists|idx: Seq<int>|
            {
                &&& lists_named_positions(idx, reported)
                &&& #[trigger] idx.len() == usable_names(reported).len()
                &&& forall|j: int| 0 <= j < idx.len() ==> Some(usable_names(reported)[j]) == opt_view(
                    reported[#[trigger] idx[j]],
                )
            },
{
    let idx = named_positions(reported);
    assert(idx.len() == usable_names(reported).len());
}

/// The names of the output devices, skipping devices whose name could not
/// be read (`None`).
pub fn usable_device_names(reported: &Vec<Option<String>>) -> (names: Vec<String>)
    ensures
        names@.map_values(|s: String| s@) == usable_names(reported@),
{
    let mut names: Vec<String> = Vec::new();
    let mut i: usize = 0;
    while i < reported.len()
        invariant
            i <= reported@.len(),
            names@.map_values(|s: String| s@) == usable_names(reported@.take(i as int)),
        decreases reported.len() - i,
    {
        assert(reported@.take(i + 1).drop_last() =~= reported@.take(i as int));
        match &reported[i] {
            Some(n) => {
                names.push(n.clone());
                assert(names@.map_values(|s: String| s@) =~= usable_names(reported@.take(i as int)).push(n@));
            },
            None => {},
        }
        i = i + 1;
    }
    assert(reported@.take(reported@.len() as int) =~= reported@);
    names
}

/// Find a device by name: the position of the first device whose reported
/// name is `name`.
pub fn find_device_by_name(reported: &Vec<Option<String>>, name: &str) -> (r: Option<usize>)
    ensures
        r matches Some(i) ==> i < reported@.len() && opt_view(reported@[i as int]) == Some(name@)
            && forall|j: int| 0 <= j < i ==> opt_view(#[trigger] reported@[j]) != Some(name@),
        r is None ==> forall|j: int| 0 <= j < reported@.len() ==> opt_view(#[trigger] reported@[j]) != Some(name@),
{
    let wanted = name.to_owned();
    let mut i: usize = 0;
    while i < reported.len()
        invariant
            wanted@ == name@,
            i <= reported@.len(),
            forall|j: int| 0 <= j < i ==> opt_view(#[trigger] reported@[j]) != Some(name@),
        decreases reported.len() - i,
    {
        match &reported[i] {
            Some(n) => {
                if *n == wanted {
                    return Some(i);
                }
            },
            None => {},
        }
        i = i + 1;
    }
    None
}

/// The name shown for the system default device: its reported name, or
/// "Default" where it has none.
pub fn default_device_name(reported: Option<String>) -> (r: String)
    ensures
        reported matches Some(n) ==> r@ == n@,
        reported is None ==> r@ == "Default"@,
{
    match reported {
        Some(n) => n,
        None => String::from_str("Default"),
    }
}

} // verus!
