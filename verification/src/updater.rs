//! What the window is told after looking for an update, and the messages
//! of the update commands.

use vstd::prelude::*;

verus! {

/// The result of looking for an update, as the window receives it.
pub struct UpdateCheckResult {
    /// Whether an update can be installed.
    pub has_update: bool,
    /// The version running now.
    pub current_version: String,
    /// The newest version.
    pub latest_version: String,
    /// The release notes of the update.
    pub notes: Option<String>,
    /// What went wrong, if looking for the update failed.
    pub error: Option<String>,
}

/// What the update service answered.
pub enum UpdateCheck {
    /// An update is available.
    Available { current_version: String, version: String, notes: Option<String> },
    /// The running version is the newest.
    UpToDate,
    /// Looking for an update failed, for the reason given.
    Failed(String),
}

/// `prefix` followed by `detail`.
pub open spec fn with_detail(prefix: Seq<char>, detail: Seq<char>) -> Seq<char> {
    prefix + detail
}

/// `res` is what the window is told, given the running version `current`
/// and the service's answer `check`.
pub open spec fn reports(res: UpdateCheckResult, current: String, check: UpdateCheck) -> bool {
    match check {
        UpdateCheck::Available { current_version, version, notes } => {
            &&& res.has_update
            &&& res.current_version == current_version
            &&& res.latest_version == version
            &&& res.notes == notes
            &&& res.error is None
        },
        UpdateCheck::UpToDate => {
            &&& !res.has_update
            &&& res.current_version@ == current@
            &&& res.latest_version@ == current@
            &&& res.notes is None
            &&& res.error is None
        },
        UpdateCheck::Failed(reason) => {
            &&& !res.has_update
            &&& res.current_version@ == current@
            &&& res.latest_version@ == Seq::<char>::empty()
            &&& res.notes is None
            &&& res.error matches Some(e) && e@ == with_detail("检查更新失败: "@, reason@)
        },
    }
}

fn prefixed(prefix: &str, detail: &str) -> (res: String)
    ensures
        res@ == with_detail(prefix@, detail@),
{
    let mut s = prefix.to_owned();
    s.append(detail);
    s
}

impl UpdateCheck {
    /// Whether the update is to be kept for a later installation.
    pub fn keeps_pending(&self) -> (res: bool)
        ensures
            res == (self is Available),
    {
        match self {
            UpdateCheck::Available { .. } => true,
            _ => false,
        }
    }
}

impl UpdateCheckResult {
    /// What the window is told, given the running version `current` and the
    /// service's answer: an available update with its versions and notes;
    /// no update, the running version being the newest; or no update with
    /// the reason why looking for one failed.
    pub fn from_check(current: String, check: UpdateCheck) -> (res: Self)
        ensures
            reports(res, current, check),
    {
        match check {
            UpdateCheck::Available { current_version, version, notes } => UpdateCheckResult {
                has_update: true,
                current_version,
                latest_version: version,
                notes,
                error: None,
            },
            UpdateCheck::UpToDate => {
                let latest = current.clone();
                UpdateCheckResult {
                    has_update: false,
                    current_version: current,
                    latest_version: latest,
                    notes: None,
                    error: None,
                }
            },
            UpdateCheck::Failed(reason) => UpdateCheckResult {
                has_update: false,
                current_version: current,
                latest_version: String::new(),
                notes: None,
                error: Some(prefixed("检查更新失败: ", reason.as_str())),
            },
        }
    }
}

/// An update is offered exactly when no error is reported and the service
/// named one; a failed look-up reports no newest version.
pub proof fn law_update_offered_only_without_error(current: String, check: UpdateCheck, res: UpdateCheckResult)
    requires
        reports(res, current, check),
    ensures
        res.has_update <==> check is Available,
        res.has_update ==> res.error is None,
        res.error is Some <==> check is Failed,
        res.error is Some ==> res.latest_version@.len() == 0 && !res.has_update,
{
}

/// What waits to be installed after a look for an update: the update found
/// when one is available, and nothing otherwise.
pub open spec fn pending_after<U>(check: UpdateCheck, update: Option<U>) -> Option<U> {
    if check is Available {
        update
    } else {
        None
    }
}

/// Puts the outcome of a look for an update into the slot of the update
/// waiting to be installed: the update found when the service offered one,
/// and nothing otherwise, whatever the slot held before.
pub fn record_check<U>(slot: &mut Option<U>, check: &UpdateCheck, update: Option<U>)
    ensures
        *final(slot) == pending_after(*check, update),
        check is Available ==> *final(slot) == update,
        !(check is Available) ==> *final(slot) is None,
{
    if check.keeps_pending() {
        *slot = update;
    } else {
        *slot = None;
    }
}

/// An update waits to be installed only after a look that told the window
/// an update is available; after any other look nothing waits, so that
/// installing is then refused (see [`take_pending`]).
pub proof fn law_install_only_after_found_update<U>(
    current: String,
    check: UpdateCheck,
    res: UpdateCheckResult,
    update: Option<U>,
)
    requires
        reports(res, current, check),
    ensures
        pending_after(check, update) is Some ==> res.has_update,
        !res.has_update ==> pending_after(check, update) is None,
{
}

/// A look that found an update keeps exactly the update found, whatever
/// its notes; any other look keeps nothing.
pub proof fn law_found_update_is_kept<U>(check: UpdateCheck, update: Option<U>)
    ensures
        check is Available ==> pending_after(check, update) == update,
        !(check is Available) ==> pending_after(check, update) is None,
{
}

/// The message when no update is waiting to be installed.
pub fn no_pending_update_message() -> (res: String)
    ensures
        res@ == "没有待安装的更新，请先检查更新"@,
{
    String::from_str("没有待安装的更新，请先检查更新")
}

/// Takes the update waiting to be installed, leaving none; without one,
/// the error says that an update must be looked for first.
pub fn take_pending<T>(slot: &mut Option<T>) -> (res: Result<T, String>)
    ensures
        *final(slot) is None,
        match *old(slot) {
            Some(u) => res == Ok::<T, String>(u),
            None => res matches Err(msg) && msg@ == "没有待安装的更新，请先检查更新"@,
        },
{
    match slot.take() {
        Some(u) => Ok(u),
        None => Err(no_pending_update_message()),
    }
}

/// The message when the updater cannot be had, with its reason.
pub fn updater_unavailable_message(reason: &str) -> (res: String)
    ensures
        res@ == with_detail("更新器不可用: "@, reason@),
{
    prefixed("更新器不可用: ", reason)
}

/// The message when downloading or installing the update failed, with its reason.
pub fn install_failed_message(reason: &str) -> (res: String)
    ensures
        res@ == with_detail("安装更新失败: "@, reason@),
{
    prefixed("安装更新失败: ", reason)
}

} // verus!
