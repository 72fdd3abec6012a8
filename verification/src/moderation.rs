//! Reporting entries: one report per `(entry, reporter)` pair; enough
//! reports hide the entry from listings without deleting it.

use vstd::prelude::*;

use crate::engine::{state_wf, RoomState, StateModel};
use crate::entry::{
    entries_view, entry_index, find_entry, has_entry, lemma_count_update, lemma_entry_index_unique,
    pred_alive_ai, EntryModel, REPORT_HIDE_THRESHOLD,
};
use crate::events::{ReportError, ReportOk};
use crate::policy::MAX_COUNT;
use crate::voting::lemma_push_keeps_no_duplicates;

verus! {

/// An entry after one more report: hidden as soon as the report tally
/// reaches the threshold.
pub open spec fn spec_reported_entry(e: EntryModel) -> EntryModel {
    EntryModel {
        report_count: e.report_count + 1,
        is_hidden: e.is_hidden || e.report_count + 1 >= REPORT_HIDE_THRESHOLD,
        ..e
    }
}

/// What a report returns: rejected for a missing entry, an eliminated entry
/// (its counters are frozen) or a duplicate report; otherwise the new tally
/// and whether the entry is now hidden.
pub open spec fn spec_report_result(m: StateModel, entry_id: u64, reporter: u64) -> Result<
    ReportOk,
    ReportError,
> {
    if !has_entry(m.entries, entry_id) {
        Err(ReportError::EntryNotFound)
    } else {
        let e = m.entries[entry_index(m.entries, entry_id)];
        if e.is_eliminated {
            Err(ReportError::EntryEliminated)
        } else if e.reporters.contains(reporter) {
            Err(ReportError::AlreadyReported)
        } else {
            Ok(
                ReportOk {
                    report_count: (e.report_count + 1) as i64,
                    hidden: e.is_hidden || e.report_count + 1 >= REPORT_HIDE_THRESHOLD,
                },
            )
        }
    }
}

/// The state after a report.
pub open spec fn spec_report_state(m: StateModel, entry_id: u64, reporter: u64) -> StateModel {
    match spec_report_result(m, entry_id, reporter) {
        Err(_) => m,
        Ok(_) => {
            let k = entry_index(m.entries, entry_id);
            let e = m.entries[k];
            StateModel {
                room: m.room,
                entries: m.entries.update(
                    k,
                    EntryModel { reporters: e.reporters.push(reporter), ..spec_reported_entry(e) },
                ),
            }
        },
    }
}

/// Reports `entry_id` on behalf of `reporter`. A reporter counts at most
/// once per entry; the entry is hidden once the tally reaches
/// `REPORT_HIDE_THRESHOLD`.
pub fn report_entry(state: &mut RoomState, entry_id: u64, reporter: u64) -> (r: Result<
    ReportOk,
    ReportError,
>)
    requires
        state_wf(old(state)@),
        forall|i: int|
            0 <= i < old(state)@.entries.len() ==> (#[trigger] old(
                state,
            )@.entries[i]).reporters.len() < MAX_COUNT,
    ensures
        r == spec_report_result(old(state)@, entry_id, reporter),
        final(state)@ == spec_report_state(old(state)@, entry_id, reporter),
        state_wf(final(state)@),
{
    let ghost m0 = state@;
    let k = match find_entry(&state.entries, entry_id) {
        Some(k) => k,
        None => {
            return Err(ReportError::EntryNotFound);
        },
    };
    proof {
        lemma_entry_index_unique(m0.entries, entry_id, k as int);
    }
    if state.entries[k].is_eliminated {
        return Err(ReportError::EntryEliminated);
    }
    let already = {
        let ent = &state.entries[k];
        crate::voting::contains_u64(&ent.reporters, reporter)
    };
    if already {
        return Err(ReportError::AlreadyReported);
    }
    let mut e = state.entries.remove(k);
    proof {
        assert(e@ == m0.entries[k as int]);
        lemma_push_keeps_no_duplicates(e.reporters@, reporter);
    }
    e.reporters.push(reporter);
    e.report_count = e.report_count + 1;
    let new_count = e.report_count;
    let now_hidden = new_count >= REPORT_HIDE_THRESHOLD;
    if now_hidden {
        e.is_hidden = true;
    }
    let hidden = e.is_hidden;
    let ghost new_entry = e@;
    state.entries.insert(k, e);
    proof {
        let old_e = m0.entries[k as int];
        assert(new_entry =~= EntryModel {
            reporters: old_e.reporters.push(reporter),
            ..spec_reported_entry(old_e)
        });
        assert(entries_view(state.entries) =~= m0.entries.update(k as int, new_entry));
        lemma_count_update(m0.entries, pred_alive_ai(), k as int, new_entry);
        assert(state@ =~= spec_report_state(m0, entry_id, reporter));
    }
    Ok(ReportOk { report_count: new_count, hidden })
}

} // verus!
