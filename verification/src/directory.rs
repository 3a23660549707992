use crate::error::MixerError;
use crate::inventory::ProcessInventory;
use crate::session::AudioSessionControl;
use vstd::prelude::*;

verus! {

/// The first position at or after `from` at which the enumeration holds no
/// session; the length where every later session was resolved.
pub open spec fn first_gap<T>(sessions: Seq<Option<T>>, from: int) -> int
    decreases sessions.len() - from,
{
    if from < 0 || from >= sessions.len() || sessions[from] is None {
        from
    } else {
        first_gap(sessions, from + 1)
    }
}

/// The sessions before the first gap, in the order of the enumeration.
pub open spec fn resolved_prefix<T>(sessions: Seq<Option<T>>) -> Seq<T> {
    Seq::new(first_gap(sessions, 0) as nat, |i: int| sessions[i]->Some_0)
}

/// Whether the enumeration went through, and if not, where it failed.
pub open spec fn enumeration_outcome<T>(sessions: Seq<Option<T>>) -> Result<(), MixerError> {
    if first_gap(sessions, 0) >= sessions.len() {
        Ok(())
    } else {
        Err(MixerError::EnumerationFailed(first_gap(sessions, 0) as usize))
    }
}

/// Splits an enumeration at its first gap: the sessions before it, and the
/// position of the gap if there is one.
pub fn split_at_first_gap<T>(sessions: Vec<Option<T>>) -> (r: (Vec<T>, Option<usize>))
    ensures
        r.0@ == resolved_prefix(sessions@),
        match r.1 {
            Some(at) => at == first_gap(sessions@, 0) && at < sessions@.len(),
            None => first_gap(sessions@, 0) == sessions@.len(),
        },
{
    let ghost all = sessions@;
    let total: usize = sessions.len();
    let mut rest = sessions;
    let mut prefix: Vec<T> = Vec::new();
    let mut index: usize = 0;
    while index < total
        invariant
            all == sessions@,
            all.len() == total,
            index + rest@.len() == all.len(),
            rest@ == all.skip(index as int),
            prefix@.len() == index,
            forall|j: int| 0 <= j < index ==> all[j] == Some(#[trigger] prefix@[j]),
            first_gap(all, 0) == first_gap(all, index as int),
        decreases total - index,
    {
        assert(all[index as int] == rest@[0]);
        let head = rest.remove(0);
        assert(rest@ == all.skip(index as int + 1));
        match head {
            Some(session) => {
                prefix.push(session);
                index += 1;
            },
            None => {
                assert(prefix@ =~= resolved_prefix(all));
                return (prefix, Some(index));
            },
        }
    }
    assert(prefix@ =~= resolved_prefix(all));
    (prefix, None)
}

/// The sessions that are active now, in the order of the enumeration. One
/// session that could not be resolved fails the whole listing.
pub fn list_active<T>(sessions: Vec<Option<T>>) -> (r: Result<Vec<T>, MixerError>)
    ensures
        match r {
            Ok(listed) => enumeration_outcome(sessions@) is Ok && listed@ == resolved_prefix(
                sessions@,
            ),
            Err(e) => enumeration_outcome(sessions@) == Err::<(), MixerError>(e),
        },
{
    let (prefix, gap) = split_at_first_gap(sessions);
    match gap {
        None => Ok(prefix),
        Some(at) => Err(MixerError::EnumerationFailed(at)),
    }
}

/// Whether the scan for `name` goes on past this session: it was resolved,
/// its process is known, and the process has another name.
pub open spec fn passes_over<S, V>(
    session: Option<AudioSessionControl<S, V>>,
    names: Map<u32, Seq<char>>,
    name: Seq<char>,
) -> bool {
    match session {
        Some(s) => names.contains_key(s.pid()) && names[s.pid()] != name,
        None => false,
    }
}

/// The first position at or after `from` at which the scan for `name` ends;
/// the length where it passes over every later session.
pub open spec fn first_stop<S, V>(
    sessions: Seq<Option<AudioSessionControl<S, V>>>,
    names: Map<u32, Seq<char>>,
    name: Seq<char>,
    from: int,
) -> int
    decreases sessions.len() - from,
{
    if from < 0 || from >= sessions.len() || !passes_over(sessions[from], names, name) {
        from
    } else {
        first_stop(sessions, names, name, from + 1)
    }
}

/// What a scan that ends at `at` returns: the session there if its process
/// is known, and otherwise why there is none.
pub open spec fn verdict_at<S, V>(
    sessions: Seq<Option<AudioSessionControl<S, V>>>,
    names: Map<u32, Seq<char>>,
    at: int,
) -> Result<AudioSessionControl<S, V>, MixerError> {
    if at < 0 || at >= sessions.len() {
        Err(MixerError::SessionNotFound)
    } else {
        match sessions[at] {
            None => Err(MixerError::EnumerationFailed(at as usize)),
            Some(s) => if names.contains_key(s.pid()) {
                Ok(s)
            } else {
                Err(MixerError::SessionNotFound)
            },
        }
    }
}

/// The session that `name` selects: the first of the enumeration whose
/// process bears exactly that name, unless the scan fails before it.
pub open spec fn selected<S, V>(
    sessions: Seq<Option<AudioSessionControl<S, V>>>,
    names: Map<u32, Seq<char>>,
    name: Seq<char>,
) -> Result<AudioSessionControl<S, V>, MixerError> {
    verdict_at(sessions, names, first_stop(sessions, names, name, 0))
}

/// Scans the enumeration for the first session whose process is called
/// `name` in the given snapshot.
pub fn find_in_inventory<S, V>(
    sessions: Vec<Option<AudioSessionControl<S, V>>>,
    inventory: &ProcessInventory,
    name: &str,
) -> (r: Result<AudioSessionControl<S, V>, MixerError>)
    ensures
        r == selected(sessions@, inventory.names(), name@),
{
    let ghost all = sessions@;
    let total: usize = sessions.len();
    let ghost names = inventory.names();
    let wanted = name.to_owned();
    let mut rest = sessions;
    let mut index: usize = 0;
    while index < total
        invariant
            all == sessions@,
            all.len() == total,
            index + rest@.len() == all.len(),
            rest@ == all.skip(index as int),
            names == inventory.names(),
            wanted@ == name@,
            first_stop(all, names, name@, 0) == first_stop(all, names, name@, index as int),
        decreases total - index,
    {
        assert(all[index as int] == rest@[0]);
        let head = rest.remove(0);
        assert(rest@ == all.skip(index as int + 1));
        match head {
            None => {
                return Err(MixerError::EnumerationFailed(index));
            },
            Some(session) => {
                match inventory.lookup(session.process_id()) {
                    None => {
                        return Err(MixerError::SessionNotFound);
                    },
                    Some(found) => {
                        if found == wanted {
                            return Ok(session);
                        }
                        index += 1;
                    },
                }
            },
        }
    }
    Err(MixerError::SessionNotFound)
}

} // verus!
