//! The decisions of the configuration file watcher: which file-system
//! events lead to reloading the configuration.

use vstd::prelude::*;

verus! {

/// What the watcher loop observed in one round.
pub enum WatchEvent {
    /// A change event naming the configuration file; the file's modification
    /// time as now read (nanoseconds from the Unix epoch), if it could be read.
    ConfigTouched(Option<i128>),
    /// A change event that does not name the configuration file.
    OtherPath,
    /// The watcher reported an error.
    WatchFailed,
    /// Nothing arrived within the waiting time.
    Idle,
    /// The watcher is gone; no event will come any more.
    Closed,
}

/// What the watcher loop is to do next.
#[derive(PartialEq, Eq, Structural, Debug, Clone, Copy)]
pub enum WatchAction {
    /// Read the configuration file again and take it over.
    Reload,
    /// Go on waiting.
    Wait,
    /// Report the watcher's error and go on waiting.
    ReportError,
    /// Leave the loop.
    Stop,
}

/// The watcher's memory: the modification time of the configuration file
/// as last seen.
pub struct ConfigWatcher {
    pub last_modified: Option<i128>,
}

impl ConfigWatcher {
    /// The action for `event` when the file was last seen modified at `last`.
    pub open spec fn action(last: Option<i128>, event: WatchEvent) -> WatchAction {
        match event {
            WatchEvent::ConfigTouched(m) => if m != last { WatchAction::Reload } else { WatchAction::Wait },
            WatchEvent::OtherPath => WatchAction::Wait,
            WatchEvent::WatchFailed => WatchAction::ReportError,
            WatchEvent::Idle => WatchAction::Wait,
            WatchEvent::Closed => WatchAction::Stop,
        }
    }

    /// The remembered modification time after `event`.
    pub open spec fn next_modified(last: Option<i128>, event: WatchEvent) -> Option<i128> {
        match event {
            WatchEvent::ConfigTouched(m) => m,
            _ => last,
        }
    }

    /// A watcher that has seen the file modified at `initial`.
    pub fn new(initial: Option<i128>) -> (res: Self)
        ensures
            res.last_modified == initial,
    {
        ConfigWatcher { last_modified: initial }
    }

    /// Decides what to do on `event`: reload only when the configuration file
    /// itself changed and its modification time differs from the one last
    /// seen, which it then remembers.
    pub fn on_event(&mut self, event: WatchEvent) -> (res: WatchAction)
        ensures
            res == ConfigWatcher::action(old(self).last_modified, event),
            final(self).last_modified == ConfigWatcher::next_modified(old(self).last_modified, event),
            event matches WatchEvent::ConfigTouched(m) ==> (m != old(self).last_modified
                ==> res == WatchAction::Reload && final(self).last_modified == m),
            event matches WatchEvent::ConfigTouched(m) ==> (m == old(self).last_modified
                ==> res == WatchAction::Wait && final(self).last_modified == m),
    {
        match event {
            WatchEvent::ConfigTouched(m) => {
                if m != self.last_modified {
                    self.last_modified = m;
                    WatchAction::Reload
                } else {
                    WatchAction::Wait
                }
            },
            WatchEvent::OtherPath => WatchAction::Wait,
            WatchEvent::WatchFailed => WatchAction::ReportError,
            WatchEvent::Idle => WatchAction::Wait,
            WatchEvent::Closed => WatchAction::Stop,
        }
    }
}

/// Any change of the file's modification time, forwards or backwards (a
/// file restored from a backup keeps its older time), reloads the
/// configuration and is remembered.
pub proof fn law_any_new_time_reloads(last: Option<i128>, m: Option<i128>)
    ensures
        m != last ==> ConfigWatcher::action(last, WatchEvent::ConfigTouched(m)) == WatchAction::Reload,
        ConfigWatcher::next_modified(last, WatchEvent::ConfigTouched(m)) == m,
{
}

/// One modification is reloaded once: the same event seen again right after
/// leads to no second reload.
pub proof fn law_no_double_reload(last: Option<i128>, m: Option<i128>)
    ensures
        ConfigWatcher::action(
            ConfigWatcher::next_modified(last, WatchEvent::ConfigTouched(m)),
            WatchEvent::ConfigTouched(m),
        ) == WatchAction::Wait,
{
}

/// Events that do not name the configuration file, errors and quiet rounds
/// never cause a reload, and leave the remembered time as it was.
pub proof fn law_only_config_changes_reload(last: Option<i128>, event: WatchEvent)
    ensures
        ConfigWatcher::action(last, event) == WatchAction::Reload ==> exists|m: Option<i128>|
            event == WatchEvent::ConfigTouched(m) && m != last,
        !(event is ConfigTouched) ==> ConfigWatcher::next_modified(last, event) == last,
{
    if let WatchEvent::ConfigTouched(m) = event {
        assert(event == WatchEvent::ConfigTouched(m));
    }
}

} // verus!
