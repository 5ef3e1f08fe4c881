//! What the reports of the onion-routing daemon mean to a context.

use vstd::prelude::*;
use vstd::string::*;
use crate::context::TorEvent;
use crate::encoding::same_text;
use crate::service_id::GoslingV3OnionServiceId;

verus! {

/// The progress at which the bootstrap of the transport is complete.
pub const BOOTSTRAP_COMPLETE_PROGRESS: u32 = 100;

/// Whether a status report of the daemon is a report of its bootstrap: a
/// notice whose action is the bootstrap.
pub open spec fn is_bootstrap_report(severity: Seq<char>, action: Seq<char>) -> bool {
    severity == "NOTICE"@ && action == "BOOTSTRAP"@
}

/// What a status report of the daemon means: nothing, unless it is a
/// report of the bootstrap; then the status of the bootstrap, followed by
/// the report that the transport is ready where the progress is 100.
pub fn status_client_events(
    severity: &str,
    action: &str,
    progress: u32,
    tag: String,
    summary: String,
) -> (events: Vec<TorEvent>)
    ensures
        !is_bootstrap_report(severity@, action@) ==> events@.len() == 0,
        is_bootstrap_report(severity@, action@) ==> {
            &&& events@.len() == (if progress == BOOTSTRAP_COMPLETE_PROGRESS {
                2int
            } else {
                1int
            })
            &&& events@[0] == (TorEvent::BootstrapStatus { progress, tag, summary })
            &&& progress == BOOTSTRAP_COMPLETE_PROGRESS ==> events@[1] is BootstrapComplete
        },
{
    let mut events: Vec<TorEvent> = Vec::new();
    if same_text(severity, "NOTICE") && same_text(action, "BOOTSTRAP") {
        events.push(TorEvent::BootstrapStatus { progress, tag, summary });
        if progress == BOOTSTRAP_COMPLETE_PROGRESS {
            events.push(TorEvent::BootstrapComplete);
        }
    }
    events
}

/// What a report on the descriptor of an onion service means: that the
/// service is published, where its descriptor was uploaded, and nothing
/// otherwise.
pub fn hs_desc_event(action: &str, hs_address: GoslingV3OnionServiceId) -> (event: Option<TorEvent>)
    ensures
        action@ == "UPLOADED"@ ==> event == Some(TorEvent::OnionServicePublished { service_id: hs_address }),
        action@ != "UPLOADED"@ ==> event is None,
{
    if same_text(action, "UPLOADED") {
        Some(TorEvent::OnionServicePublished { service_id: hs_address })
    } else {
        None
    }
}

} // verus!
