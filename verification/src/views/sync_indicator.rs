//! The text of the synchronisation indicator.

use vstd::prelude::*;
use crate::models::sync::SyncState;
use crate::utils::text::{decimal, push_decimal};

verus! {

/// What the indicator shows for a state: nothing when synchronised, else
/// its text and whether it is styled as an error (offline or failed).
pub open spec fn indicator(state: SyncState) -> Option<(Seq<char>, bool)> {
    match state {
        SyncState::Synced => None,
        SyncState::Syncing => Some(("⏳ Syncing..."@, false)),
        SyncState::Pending { count } => Some(("⏳ Pending ("@ + decimal(count as nat) + ")"@, false)),
        SyncState::Offline { pending_count } => Some((
            if pending_count > 0 {
                "📴 Offline ("@ + decimal(pending_count as nat) + " pending)"@
            } else {
                "📴 Offline"@
            },
            true,
        )),
        SyncState::Error { message } => Some(("❌ Error: "@ + message@, true)),
    }
}

/// The indicator's text and error styling for a state; nothing when
/// synchronised.
pub fn indicator_text(state: &SyncState) -> (r: Option<(String, bool)>)
    ensures
        match r {
            Some((text, is_error)) => indicator(*state) == Some((text@, is_error)),
            None => indicator(*state).is_none(),
        },
{
    match state {
        SyncState::Synced => None,
        SyncState::Syncing => Some((String::from_str("⏳ Syncing..."), false)),
        SyncState::Pending { count } => {
            let mut s = String::from_str("⏳ Pending (");
            push_decimal(&mut s, *count);
            s.append(")");
            Some((s, false))
        },
        SyncState::Offline { pending_count } => {
            if *pending_count > 0 {
                let mut s = String::from_str("📴 Offline (");
                push_decimal(&mut s, *pending_count);
                s.append(" pending)");
                Some((s, true))
            } else {
                Some((String::from_str("📴 Offline"), true))
            }
        },
        SyncState::Error { message } => {
            let mut s = String::from_str("❌ Error: ");
            s.append(message.as_str());
            Some((s, true))
        },
    }
}

/// The indicator shows nothing once synchronised; while synchronising or
/// with changes pending it is plain; offline or after a failure it is
/// styled as an error, counting the pending changes when there are any.
pub proof fn law_indicator(count: usize, message: String)
    ensures
        indicator(SyncState::Synced) is None,
        indicator(SyncState::Syncing) == Some(("⏳ Syncing..."@, false)),
        indicator(SyncState::Pending { count }) == Some(("⏳ Pending ("@ + decimal(count as nat) + ")"@, false)),
        count > 0 ==> indicator(SyncState::Offline { pending_count: count })
            == Some(("📴 Offline ("@ + decimal(count as nat) + " pending)"@, true)),
        indicator(SyncState::Offline { pending_count: 0 }) == Some(("📴 Offline"@, true)),
        indicator(SyncState::Error { message }) == Some(("❌ Error: "@ + message@, true)),
{
}

} // verus!
