//! Best-effort absolute window position: the compositor's client list is
//! matched against the current process id, and the matching record's
//! coordinates are converted to a top-left origin using the owning monitor's
//! height.
//!
//! The process around the library obtains the client list (one record per
//! window, with the owning process id and the window's coordinates) and
//! hands it over as plain values; everything from there on is computed and
//! proved here. An absent match means the capability is unavailable and the
//! caller falls back to the origin.

use vstd::prelude::*;

verus! {

/// One window record of the compositor's client list.
pub struct ClientRecord {
    pub pid: u32,
    pub x: i32,
    pub y: i32,
}

/// The position derived from the first record whose `pid` matches: its `x`
/// unchanged, its `y` measured from the top of a monitor of the given height
/// above a window of the given height. `None` when no record matches.
pub open spec fn spec_window_pos(
    clients: Seq<ClientRecord>,
    pid: u32,
    monitor_height: u32,
    window_height: u32,
) -> Option<(int, int)>
    decreases clients.len(),
{
    if clients.len() == 0 {
        None
    } else if clients[0].pid == pid {
        Some(
            (
                clients[0].x as int,
                monitor_height - (window_height + clients[0].y),
            ),
        )
    } else {
        spec_window_pos(clients.drop_first(), pid, monitor_height, window_height)
    }
}

/// A skipped prefix without a matching record does not change the outcome.
proof fn lemma_window_pos_skip(
    clients: Seq<ClientRecord>,
    pid: u32,
    monitor_height: u32,
    window_height: u32,
    n: int,
)
    requires
        0 <= n <= clients.len(),
        forall|j: int| 0 <= j < n ==> clients[j].pid != pid,
    ensures
        spec_window_pos(clients.skip(n), pid, monitor_height, window_height)
            == spec_window_pos(clients, pid, monitor_height, window_height),
    decreases n,
{
    if n > 0 {
        let rest = clients.drop_first();
        assert(rest.skip(n - 1) =~= clients.skip(n));
        assert forall|j: int| 0 <= j < n - 1 implies rest[j].pid != pid by {
            assert(rest[j] == clients[j + 1]);
        }
        lemma_window_pos_skip(rest, pid, monitor_height, window_height, n - 1);
    } else {
        assert(clients.skip(0) =~= clients);
    }
}

/// The position is absent exactly when no record carries the process id.
pub proof fn lemma_window_pos_none(
    clients: Seq<ClientRecord>,
    pid: u32,
    monitor_height: u32,
    window_height: u32,
)
    ensures
        spec_window_pos(clients, pid, monitor_height, window_height) is None <==> (forall|i: int|
            0 <= i < clients.len() ==> clients[i].pid != pid),
    decreases clients.len(),
{
    if clients.len() > 0 && clients[0].pid != pid {
        let rest = clients.drop_first();
        lemma_window_pos_none(rest, pid, monitor_height, window_height);
        if spec_window_pos(clients, pid, monitor_height, window_height) is None {
            assert forall|i: int| 0 <= i < clients.len() implies clients[i].pid != pid by {
                if i >= 1 {
                    assert(rest[i - 1] == clients[i]);
                }
            }
        } else {
            assert(!(forall|i: int| 0 <= i < rest.len() ==> rest[i].pid != pid));
            let w = choose|i: int| 0 <= i < rest.len() && rest[i].pid == pid;
            assert(clients[w + 1].pid == pid);
        }
    }
}

/// Finds the first client record owned by `pid` and converts its coordinates
/// to a top-left origin; `None` when the process owns no listed window.
pub fn window_pos_from_clients(
    clients: &Vec<ClientRecord>,
    pid: u32,
    monitor_height: u32,
    window_height: u32,
) -> (r: Option<(i64, i64)>)
    ensures
        ({
            let s = spec_window_pos(clients@, pid, monitor_height, window_height);
            match r {
                Some(p) => s == Some((p.0 as int, p.1 as int)),
                None => s is None,
            }
        }),
{
    let mut n: usize = 0;
    while n < clients.len()
        invariant
            n <= clients.len(),
            forall|j: int| 0 <= j < n ==> clients@[j].pid != pid,
        decreases clients.len() - n,
    {
        if clients[n].pid == pid {
            proof {
                lemma_window_pos_skip(clients@, pid, monitor_height, window_height, n as int);
            }
            let x: i64 = clients[n].x as i64;
            let y: i64 = monitor_height as i64 - (window_height as i64 + clients[n].y as i64);
            return Some((x, y));
        }
        n = n + 1;
    }
    proof {
        lemma_window_pos_skip(clients@, pid, monitor_height, window_height, clients@.len() as int);
    }
    None
}

} // verus!
