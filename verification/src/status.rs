//! The shared status surface: a bounded append-only log plus connectivity
//! and shutdown flags.
//!
//! One value of `AppState` spans one bridge session.  The bridge loop writes
//! it; the external control surface reads the log and the connected flag and
//! may raise the shutdown flag.  The embedding program serializes the
//! concurrent access; the logic here is single-threaded.

use vstd::prelude::*;

verus! {

/// Most entries the status log retains; when a new entry would exceed this,
/// the oldest is evicted in the same call.
pub const LOG_CAPACITY: usize = 150;

/// Per-session shared state: endpoint text fields shown by the control
/// surface, the connectivity snapshot, the shutdown request, and the log.
pub struct AppState {
    /// Local address, as text for display.
    pub my_ip: String,
    /// Peer address, as text for display.
    pub peer_ip: String,
    /// Peer port, as text for display.
    pub peer_port: String,
    /// Address inside the tunnel, as text for display.
    pub virtual_ip: String,
    /// Eventually consistent snapshot of the connection state; the bridge
    /// loop's own state is authoritative.
    pub connected: bool,
    /// Cooperative cancellation: the loop polls this once per iteration.
    pub shutdown: bool,
    /// Bounded FIFO of status entries, oldest first.
    pub logs: Vec<String>,
}

/// One log insertion: append, and evict the oldest entry if the bound would
/// otherwise be exceeded.
pub open spec fn log_append(entries: Seq<String>, message: String) -> Seq<String> {
    let appended = entries.push(message);
    if appended.len() > LOG_CAPACITY {
        appended.drop_first()
    } else {
        appended
    }
}

/// The log left by a series of insertions into an empty log.
pub open spec fn logs_after(messages: Seq<String>) -> Seq<String>
    decreases messages.len(),
{
    if messages.len() == 0 {
        Seq::empty()
    } else {
        log_append(logs_after(messages.drop_last()), messages.last())
    }
}

impl AppState {
    /// The log never exceeds its capacity.
    pub open spec fn wf(&self) -> bool {
        self.logs@.len() <= LOG_CAPACITY
    }

    /// Everything but the log and the two flags.
    pub open spec fn same_display(&self, other: &AppState) -> bool {
        &&& self.my_ip == other.my_ip
        &&& self.peer_ip == other.peer_ip
        &&& self.peer_port == other.peer_port
        &&& self.virtual_ip == other.virtual_ip
    }

    /// A fresh session surface: flags down, empty log, default peer port and
    /// tunnel address.
    pub fn new(my_ip: String) -> (r: AppState)
        ensures
            r.my_ip == my_ip,
            r.peer_ip@ == Seq::<char>::empty(),
            r.peer_port@ == "9000"@,
            r.virtual_ip@ == "10.0.0.1"@,
            !r.connected,
            !r.shutdown,
            r.logs@ == Seq::<String>::empty(),
            r.wf(),
    {
        AppState {
            my_ip,
            peer_ip: String::new(),
            peer_port: "9000".to_owned(),
            virtual_ip: "10.0.0.1".to_owned(),
            connected: false,
            shutdown: false,
            logs: Vec::new(),
        }
    }

    /// Append one entry, evicting the oldest when the bound would be
    /// exceeded; everything else is untouched.
    pub fn log(&mut self, message: String)
        ensures
            final(self).logs@ == log_append(old(self).logs@, message),
            old(self).wf() ==> final(self).wf(),
            final(self).same_display(old(self)),
            final(self).connected == old(self).connected,
            final(self).shutdown == old(self).shutdown,
    {
        self.logs.push(message);
        if self.logs.len() > LOG_CAPACITY {
            self.logs.remove(0);
            proof {
                assert(final(self).logs@ =~= log_append(old(self).logs@, message));
            }
        }
    }

    /// Update the connectivity snapshot.
    pub fn set_connected(&mut self, value: bool)
        ensures
            final(self).connected == value,
            final(self).logs@ == old(self).logs@,
            final(self).same_display(old(self)),
            final(self).shutdown == old(self).shutdown,
    {
        self.connected = value;
    }

    /// Raise the shutdown flag; the bridge loop exits at its next poll.
    pub fn request_shutdown(&mut self)
        ensures
            final(self).shutdown,
            final(self).logs@ == old(self).logs@,
            final(self).same_display(old(self)),
            final(self).connected == old(self).connected,
    {
        self.shutdown = true;
    }

    /// The connectivity snapshot.
    pub fn observe_connected(&self) -> (r: bool)
        ensures
            r == self.connected,
    {
        self.connected
    }

    /// The log entries, oldest first.
    pub fn observe_log(&self) -> (r: &Vec<String>)
        ensures
            r@ == self.logs@,
    {
        &self.logs
    }
}

/// Law: a run of more than `LOG_CAPACITY` insertions into an empty log
/// leaves exactly the most recent `LOG_CAPACITY` messages, in their original
/// relative order; a shorter run leaves every message.
pub proof fn lemma_log_bound(messages: Seq<String>)
    ensures
        messages.len() <= LOG_CAPACITY ==> logs_after(messages) == messages,
        messages.len() > LOG_CAPACITY ==> logs_after(messages) == messages.subrange(
            messages.len() - LOG_CAPACITY,
            messages.len() as int,
        ),
    decreases messages.len(),
{
    if messages.len() == 0 {
        assert(logs_after(messages) =~= messages);
    } else {
        let head = messages.drop_last();
        let m = messages.last();
        lemma_log_bound(head);
        if head.len() < LOG_CAPACITY {
            assert(logs_after(messages) =~= messages);
        } else if head.len() == LOG_CAPACITY {
            assert(logs_after(messages) =~= messages.subrange(1, messages.len() as int));
        } else {
            assert(logs_after(head) == head.subrange(
                head.len() - LOG_CAPACITY,
                head.len() as int,
            ));
            assert(logs_after(messages) =~= messages.subrange(
                messages.len() - LOG_CAPACITY,
                messages.len() as int,
            ));
        }
    }
}

} // verus!
