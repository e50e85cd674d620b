//! The BitLocker management tool: the list of encrypted partitions, and unlocking,
//! decrypting, reading the recovery key of, suspending or resuming one of them. The
//! caller runs each request in the background and hands the results back.
use vstd::prelude::*;
use crate::app_state::{BitLockerPartition, BitLockerUnlockMode, VolumeStatus};
use crate::text::{chars_eq, push_str, str_to_string, to_chars};

verus! {

/// The outcome of unlocking or decrypting a drive.
pub struct OperationResult {
    pub letter: String,
    pub success: bool,
    pub message: String,
}

/// A request for the background.
pub enum ManageRequest {
    Unlock { drive: String, mode: BitLockerUnlockMode, secret: String },
    Decrypt(String),
    GetRecoveryKey(String),
    Suspend(String),
    Resume(String),
}

/// The results that arrived since the last poll.
pub struct ManageEvents {
    pub partitions: Option<Vec<BitLockerPartition>>,
    pub unlock: Option<OperationResult>,
    pub decrypt: Option<OperationResult>,
    pub recovery: Option<Result<String, String>>,
    pub protect: Option<Result<String, String>>,
}

/// The dialog's state.
pub struct BitLockerManageDialog {
    pub show: bool,
    pub partitions: Vec<BitLockerPartition>,
    pub partitions_loading: bool,
    /// The chosen drive letter.
    pub selected: Option<String>,
    /// A request runs.
    pub loading: bool,
    pub message: String,
    pub mode: BitLockerUnlockMode,
    pub password: String,
    pub recovery_key: String,
    pub recovery_display: Option<String>,
}

pub open spec fn letters_of(ps: Seq<BitLockerPartition>) -> Seq<Seq<char>> {
    ps.map_values(|p: BitLockerPartition| p.letter@)
}

pub open spec fn opt_str(o: Option<String>) -> Option<Seq<char>> {
    match o {
        Some(s) => Some(s@),
        None => None,
    }
}

/// The choice after a new list: kept when still listed, else the first drive.
pub open spec fn kept_selection(sel: Option<Seq<char>>, ps: Seq<BitLockerPartition>) -> Option<Seq<char>> {
    if sel matches Some(s) && letters_of(ps).contains(s) {
        sel
    } else if ps.len() > 0 {
        Some(ps[0].letter@)
    } else {
        None
    }
}

/// Everything but the list, its loading flag and the choice is unchanged.
pub open spec fn same_but_list(a: BitLockerManageDialog, b: BitLockerManageDialog) -> bool {
    &&& b.show == a.show
    &&& b.loading == a.loading
    &&& b.message == a.message
    &&& b.mode == a.mode
    &&& b.password == a.password
    &&& b.recovery_key == a.recovery_key
    &&& b.recovery_display == a.recovery_display
}

pub open spec fn op_succeeded(e: ManageEvents) -> bool {
    ||| (e.unlock matches Some(r) && r.success)
    ||| (e.decrypt matches Some(r) && r.success)
    ||| (e.protect matches Some(Ok(_)))
}

/// The message left by the last result that came.
pub open spec fn message_after(old_msg: Seq<char>, e: ManageEvents) -> Seq<char> {
    match e.protect {
        Some(Ok(m)) => m@,
        Some(Err(x)) => "操作失败: "@ + x@,
        None => match e.recovery {
            Some(Ok(_)) => "已读取恢复密钥"@,
            Some(Err(x)) => "读取恢复密钥失败: "@ + x@,
            None => match e.decrypt {
                Some(r) => if r.success {
                    r.letter@ + ": "@ + r.message@
                } else {
                    r.letter@ + " 解密失败: "@ + r.message@
                },
                None => match e.unlock {
                    Some(r) => if r.success {
                        r.letter@ + " 解锁成功"@
                    } else {
                        r.letter@ + " 解锁失败: "@ + r.message@
                    },
                    None => old_msg,
                },
            },
        },
    }
}

impl BitLockerManageDialog {
    pub fn new() -> (r: BitLockerManageDialog)
        ensures
            !r.show,
            r.partitions@.len() == 0,
            !r.partitions_loading,
            r.selected is None,
            !r.loading,
            r.message@.len() == 0,
            r.mode == BitLockerUnlockMode::Password,
            r.password@.len() == 0,
            r.recovery_key@.len() == 0,
            r.recovery_display is None,
    {
        BitLockerManageDialog {
            show: false,
            partitions: Vec::new(),
            partitions_loading: false,
            selected: None,
            loading: false,
            message: String::new(),
            mode: BitLockerUnlockMode::Password,
            password: String::new(),
            recovery_key: String::new(),
            recovery_display: None,
        }
    }

    /// Starts listing the encrypted partitions, unless a list is being read: then
    /// nothing changes and `false` comes back.
    pub fn start_load_bitlocker_manage_partitions(&mut self) -> (r: bool)
        ensures
            r == !old(self).partitions_loading,
            r ==> final(self).partitions_loading && final(self).partitions@.len() == 0,
            !r ==> final(self).partitions == old(self).partitions && final(self).partitions_loading,
            final(self).selected == old(self).selected,
            same_but_list(*old(self), *final(self)),
    {
        if self.partitions_loading {
            return false;
        }
        self.partitions_loading = true;
        self.partitions = Vec::new();
        true
    }

    /// The common start of a request: none while one runs; without a chosen drive
    /// only `no_choice` is shown; else `busy` is shown and the drive comes back.
    fn begin(&mut self, no_choice: &str, busy: &str) -> (r: Option<String>)
        ensures
            old(self).loading ==> r is None && *final(self) == *old(self),
            !old(self).loading && old(self).selected is None ==> r is None
                && final(self).message@ == no_choice@ && !final(self).loading,
            !old(self).loading && old(self).selected is Some ==> (r matches Some(d)
                && d@ == old(self).selected->0@ && final(self).loading && final(self).message@ == busy@),
            final(self).partitions == old(self).partitions,
            final(self).partitions_loading == old(self).partitions_loading,
            final(self).selected == old(self).selected,
            final(self).mode == old(self).mode,
            final(self).password == old(self).password,
            final(self).recovery_key == old(self).recovery_key,
            final(self).recovery_display == old(self).recovery_display,
            final(self).show == old(self).show,
    {
        if self.loading {
            return None;
        }
        match &self.selected {
            None => {
                self.message = str_to_string(no_choice);
                None
            },
            Some(d) => {
                let drive = str_to_string(d.as_str());
                self.loading = true;
                self.message = str_to_string(busy);
                Some(drive)
            },
        }
    }

    /// Unlocks the chosen drive with the password or the recovery key, as chosen.
    pub fn start_bitlocker_manage_unlock(&mut self) -> (r: Option<ManageRequest>)
        ensures
            old(self).loading ==> r is None && *final(self) == *old(self),
            !old(self).loading && old(self).selected is None ==> r is None
                && final(self).message@ == "请先选择要解锁的分区"@,
            !old(self).loading && old(self).selected is Some ==> (r matches Some(ManageRequest::Unlock { drive, mode, secret })
                && drive@ == old(self).selected->0@ && mode == old(self).mode
                && secret@ == (if mode == BitLockerUnlockMode::Password { old(self).password@ } else { old(self).recovery_key@ })
                && final(self).loading && final(self).message@ == "正在解锁..."@),
    {
        match self.begin("请先选择要解锁的分区", "正在解锁...") {
            None => None,
            Some(drive) => {
                let secret = match self.mode {
                    BitLockerUnlockMode::Password => str_to_string(self.password.as_str()),
                    BitLockerUnlockMode::RecoveryKey => str_to_string(self.recovery_key.as_str()),
                };
                Some(ManageRequest::Unlock { drive, mode: self.mode, secret })
            },
        }
    }

    /// Turns BitLocker off on the chosen drive (it decrypts in the background).
    pub fn start_bitlocker_manage_decrypt(&mut self) -> (r: Option<ManageRequest>)
        ensures
            old(self).loading ==> r is None && *final(self) == *old(self),
            !old(self).loading && old(self).selected is None ==> r is None
                && final(self).message@ == "请先选择要解密的分区"@,
            !old(self).loading && old(self).selected is Some ==> (r matches Some(ManageRequest::Decrypt(d))
                && d@ == old(self).selected->0@ && final(self).loading && final(self).message@ == "正在发起解密..."@),
    {
        match self.begin("请先选择要解密的分区", "正在发起解密...") {
            None => None,
            Some(drive) => Some(ManageRequest::Decrypt(drive)),
        }
    }

    /// Reads the recovery key of the chosen (unlocked) drive; the key shown before
    /// is cleared.
    pub fn start_bitlocker_manage_get_recovery(&mut self) -> (r: Option<ManageRequest>)
        ensures
            old(self).loading ==> r is None && *final(self) == *old(self),
            !old(self).loading && old(self).selected is None ==> r is None
                && final(self).message@ == "请先选择分区"@,
            !old(self).loading && old(self).selected is Some ==> (r matches Some(ManageRequest::GetRecoveryKey(d))
                && d@ == old(self).selected->0@ && final(self).loading && final(self).message@ == "正在读取恢复密钥..."@
                && final(self).recovery_display is None),
    {
        match self.begin("请先选择分区", "正在读取恢复密钥...") {
            None => None,
            Some(drive) => {
                self.recovery_display = None;
                Some(ManageRequest::GetRecoveryKey(drive))
            },
        }
    }

    /// Suspends (`suspend`) or resumes the protection of the chosen drive.
    pub fn start_bitlocker_manage_protect(&mut self, suspend: bool) -> (r: Option<ManageRequest>)
        ensures
            old(self).loading ==> r is None && *final(self) == *old(self),
            !old(self).loading && old(self).selected is None ==> r is None
                && final(self).message@ == "请先选择分区"@,
            !old(self).loading && old(self).selected is Some ==> final(self).loading && (if suspend {
                (r matches Some(ManageRequest::Suspend(d)) && d@ == old(self).selected->0@)
                    && final(self).message@ == "正在挂起保护..."@
            } else {
                (r matches Some(ManageRequest::Resume(d)) && d@ == old(self).selected->0@)
                    && final(self).message@ == "正在恢复保护..."@
            }),
    {
        let busy = if suspend { "正在挂起保护..." } else { "正在恢复保护..." };
        match self.begin("请先选择分区", busy) {
            None => None,
            Some(drive) => if suspend {
                Some(ManageRequest::Suspend(drive))
            } else {
                Some(ManageRequest::Resume(drive))
            },
        }
    }

    pub fn start_bitlocker_manage_suspend(&mut self) -> (r: Option<ManageRequest>)
        ensures
            !old(self).loading && old(self).selected is Some ==> (r matches Some(ManageRequest::Suspend(d))
                && d@ == old(self).selected->0@),
            old(self).loading || old(self).selected is None ==> r is None,
    {
        self.start_bitlocker_manage_protect(true)
    }

    pub fn start_bitlocker_manage_resume(&mut self) -> (r: Option<ManageRequest>)
        ensures
            !old(self).loading && old(self).selected is Some ==> (r matches Some(ManageRequest::Resume(d))
                && d@ == old(self).selected->0@),
            old(self).loading || old(self).selected is None ==> r is None,
    {
        self.start_bitlocker_manage_protect(false)
    }

    fn take_list(&mut self, ps: Vec<BitLockerPartition>)
        ensures
            opt_str(final(self).selected) == kept_selection(opt_str(old(self).selected), ps@),
            final(self).partitions == ps,
            !final(self).partitions_loading,
            same_but_list(*old(self), *final(self)),
    {
        let keep = match &self.selected {
            Some(sel) => {
                let sv = to_chars(sel.as_str());
                let mut found = false;
                let mut i: usize = 0;
                while i < ps.len()
                    invariant
                        i <= ps.len(),
                        sv@ == sel@,
                        found == letters_of(ps@).take(i as int).contains(sel@),
                    decreases ps.len() - i,
                {
                    let lv = to_chars(ps[i].letter.as_str());
                    let eq = chars_eq(lv.as_slice(), sv.as_slice());
                    let ghost prev = letters_of(ps@).take(i as int);
                    let ghost next = letters_of(ps@).take(i + 1);
                    proof {
                        assert(next =~= prev.push(ps@[i as int].letter@));
                        if eq {
                            assert(next[i as int] == sel@);
                        }
                        if found {
                            let j = choose|j: int| 0 <= j < prev.len() && prev[j] == sel@;
                            assert(next[j] == sel@);
                        }
                        if next.contains(sel@) && !eq {
                            let j = choose|j: int| 0 <= j < next.len() && next[j] == sel@;
                            assert(j < i);
                            assert(prev[j] == sel@);
                        }
                    }
                    found = found || eq;
                    i = i + 1;
                }
                assert(letters_of(ps@).take(ps.len() as int) =~= letters_of(ps@));
                found
            },
            None => false,
        };
        if !keep {
            self.selected = if ps.len() > 0 { Some(str_to_string(ps[0].letter.as_str())) } else { None };
        }
        self.partitions = ps;
        self.partitions_loading = false;
    }

    /// Takes the results that came: a new list (keeping the choice when still
    /// listed), then the outcome of unlocking, decrypting, reading the key and
    /// changing the protection, each of which ends the running request and shows its
    /// message. A successful unlock clears the typed secrets; a successful unlock,
    /// decryption or protection change asks for the list again: `true` means the
    /// caller starts reading it.
    pub fn check_bitlocker_manage_async_operations(&mut self, ev: ManageEvents) -> (reload: bool)
        ensures
            ({
                let listed_loading = if ev.partitions is Some { false } else { old(self).partitions_loading };
                &&& reload == (op_succeeded(ev) && !listed_loading)
                &&& final(self).partitions_loading == (listed_loading || op_succeeded(ev))
                &&& (reload ==> final(self).partitions@.len() == 0)
                &&& (!reload ==> final(self).partitions == match ev.partitions {
                    Some(ps) => ps,
                    None => old(self).partitions,
                })
            }),
            opt_str(final(self).selected) == match ev.partitions {
                Some(ps) => kept_selection(opt_str(old(self).selected), ps@),
                None => opt_str(old(self).selected),
            },
            final(self).loading == (if ev.unlock is Some || ev.decrypt is Some || ev.recovery is Some
                || ev.protect is Some { false } else { old(self).loading }),
            final(self).message@ == message_after(old(self).message@, ev),
            (ev.unlock matches Some(r) && r.success) ==> final(self).password@.len() == 0
                && final(self).recovery_key@.len() == 0,
            !(ev.unlock matches Some(r) && r.success) ==> final(self).password == old(self).password
                && final(self).recovery_key == old(self).recovery_key,
            opt_str(final(self).recovery_display) == match ev.recovery {
                Some(Ok(k)) => Some(k@),
                _ => opt_str(old(self).recovery_display),
            },
            final(self).mode == old(self).mode,
            final(self).show == old(self).show,
    {
        let ManageEvents { partitions, unlock, decrypt, recovery, protect } = ev;
        if let Some(ps) = partitions {
            self.take_list(ps);
        }
        let ghost listed_loading = self.partitions_loading;
        let ghost listed = self.partitions;
        let mut reload = false;
        if let Some(r) = unlock {
            self.loading = false;
            if r.success {
                let mut m = str_to_string(r.letter.as_str());
                push_str(&mut m, " 解锁成功");
                self.message = m;
                self.password = String::new();
                self.recovery_key = String::new();
                let l = self.start_load_bitlocker_manage_partitions();
                reload = reload || l;
            } else {
                let mut m = str_to_string(r.letter.as_str());
                push_str(&mut m, " 解锁失败: ");
                push_str(&mut m, r.message.as_str());
                self.message = m;
            }
        }
        if let Some(r) = decrypt {
            self.loading = false;
            if r.success {
                let mut m = str_to_string(r.letter.as_str());
                push_str(&mut m, ": ");
                push_str(&mut m, r.message.as_str());
                self.message = m;
                let l = self.start_load_bitlocker_manage_partitions();
                reload = reload || l;
            } else {
                let mut m = str_to_string(r.letter.as_str());
                push_str(&mut m, " 解密失败: ");
                push_str(&mut m, r.message.as_str());
                self.message = m;
            }
        }
        if let Some(r) = recovery {
            self.loading = false;
            match r {
                Ok(key) => {
                    self.recovery_display = Some(key);
                    self.message = str_to_string("已读取恢复密钥");
                },
                Err(e) => {
                    let mut m = str_to_string("读取恢复密钥失败: ");
                    push_str(&mut m, e.as_str());
                    self.message = m;
                },
            }
        }
        if let Some(r) = protect {
            self.loading = false;
            match r {
                Ok(msg) => {
                    self.message = msg;
                    let l = self.start_load_bitlocker_manage_partitions();
                    reload = reload || l;
                },
                Err(e) => {
                    let mut m = str_to_string("操作失败: ");
                    push_str(&mut m, e.as_str());
                    self.message = m;
                },
            }
        }
        reload
    }
}

// ---------------------------------------------------------------------------
// Unlocking encrypted partitions before a backup
// ---------------------------------------------------------------------------

/// The dialog that unlocks, one after another, the encrypted partitions a backup
/// needs.
pub struct BackupBitLockerDialog {
    pub partitions: Vec<BitLockerPartition>,
    /// The drive being unlocked.
    pub current: Option<String>,
    pub loading: bool,
    pub message: String,
    pub mode: BitLockerUnlockMode,
    pub password: String,
    pub recovery_key: String,
}

/// The first locked partition's letter, from position `i` on.
pub open spec fn first_locked(ps: Seq<BitLockerPartition>, i: int) -> Option<Seq<char>>
    decreases ps.len() - i,
{
    if i < 0 || i >= ps.len() {
        None
    } else if ps[i].status == VolumeStatus::EncryptedLocked {
        Some(ps[i].letter@)
    } else {
        first_locked(ps, i + 1)
    }
}

/// The list with the partition `letter` marked unlocked (the first one so named).
pub open spec fn mark_unlocked(ps: Seq<BitLockerPartition>, letter: Seq<char>) -> Seq<VolumeStatus> {
    match first_named(ps, letter, 0) {
        Some(k) => ps.map_values(|p: BitLockerPartition| p.status).update(k, VolumeStatus::EncryptedUnlocked),
        None => ps.map_values(|p: BitLockerPartition| p.status),
    }
}

pub open spec fn first_named(ps: Seq<BitLockerPartition>, letter: Seq<char>, i: int) -> Option<int>
    decreases ps.len() - i,
{
    if i < 0 || i >= ps.len() {
        None
    } else if ps[i].letter@ == letter {
        Some(i)
    } else {
        first_named(ps, letter, i + 1)
    }
}

pub open spec fn statuses(ps: Seq<BitLockerPartition>) -> Seq<VolumeStatus> {
    ps.map_values(|p: BitLockerPartition| p.status)
}

/// The partitions other than `letter`, in order.
pub open spec fn without(ps: Seq<BitLockerPartition>, letter: Seq<char>) -> Seq<BitLockerPartition> {
    ps.filter(|p: BitLockerPartition| p.letter@ != letter)
}

fn find_locked(ps: &Vec<BitLockerPartition>) -> (r: Option<usize>)
    ensures
        match r {
            Some(i) => i < ps@.len() && first_locked(ps@, 0) == Some(ps@[i as int].letter@),
            None => first_locked(ps@, 0) is None,
        },
{
    let mut i: usize = 0;
    while i < ps.len()
        invariant
            i <= ps.len(),
            first_locked(ps@, 0) == first_locked(ps@, i as int),
        decreases ps.len() - i,
    {
        if ps[i].status == VolumeStatus::EncryptedLocked {
            return Some(i);
        }
        i = i + 1;
    }
    None
}

fn find_named(ps: &Vec<BitLockerPartition>, letter: &str) -> (r: Option<usize>)
    ensures
        match r {
            Some(i) => i < ps@.len() && first_named(ps@, letter@, 0) == Some(i as int),
            None => first_named(ps@, letter@, 0) is None,
        },
{
    let lv = to_chars(letter);
    let mut i: usize = 0;
    while i < ps.len()
        invariant
            i <= ps.len(),
            lv@ == letter@,
            first_named(ps@, letter@, 0) == first_named(ps@, letter@, i as int),
        decreases ps.len() - i,
    {
        let pv = to_chars(ps[i].letter.as_str());
        if chars_eq(pv.as_slice(), lv.as_slice()) {
            return Some(i);
        }
        i = i + 1;
    }
    None
}

impl BackupBitLockerDialog {
    /// Moves on to the first partition still locked (none: `None`).
    pub fn select_next_backup_bitlocker_partition(&mut self)
        ensures
            opt_str(final(self).current) == first_locked(old(self).partitions@, 0),
            final(self).partitions == old(self).partitions,
            final(self).loading == old(self).loading,
            final(self).message == old(self).message,
            final(self).password == old(self).password,
            final(self).recovery_key == old(self).recovery_key,
            final(self).mode == old(self).mode,
    {
        self.current = match find_locked(&self.partitions) {
            Some(i) => Some(str_to_string(self.partitions[i].letter.as_str())),
            None => None,
        };
    }

    /// Starts unlocking the current partition, with the password or recovery key as
    /// chosen; none while one runs.
    pub fn start_backup_bitlocker_unlock(&mut self) -> (r: Option<ManageRequest>)
        ensures
            old(self).loading ==> r is None && *final(self) == *old(self),
            !old(self).loading && old(self).current is None ==> r is None
                && final(self).message@ == "请先选择要解锁的分区"@ && !final(self).loading,
            !old(self).loading && old(self).current is Some ==> (r matches Some(ManageRequest::Unlock { drive, mode, secret })
                && drive@ == old(self).current->0@ && mode == old(self).mode
                && secret@ == (if mode == BitLockerUnlockMode::Password { old(self).password@ } else { old(self).recovery_key@ })
                && final(self).loading && final(self).message@ == "正在解锁..."@),
            final(self).partitions == old(self).partitions,
            final(self).current == old(self).current,
    {
        if self.loading {
            return None;
        }
        match &self.current {
            None => {
                self.message = str_to_string("请先选择要解锁的分区");
                None
            },
            Some(d) => {
                let drive = str_to_string(d.as_str());
                self.loading = true;
                self.message = str_to_string("正在解锁...");
                let secret = match self.mode {
                    BitLockerUnlockMode::Password => str_to_string(self.password.as_str()),
                    BitLockerUnlockMode::RecoveryKey => str_to_string(self.recovery_key.as_str()),
                };
                Some(ManageRequest::Unlock { drive, mode: self.mode, secret })
            },
        }
    }

    /// Takes the outcome of an unlock, if one came: on success the partition is
    /// marked unlocked, the typed secrets are cleared and the next locked one is
    /// chosen; on failure only the message changes.
    pub fn check_backup_bitlocker_unlock_result(&mut self, received: Option<OperationResult>)
        ensures
            match received {
                None => *final(self) == *old(self),
                Some(res) => {
                    &&& !final(self).loading
                    &&& if res.success {
                        &&& final(self).message@ == res.letter@ + " 解锁成功"@
                        &&& statuses(final(self).partitions@) == mark_unlocked(old(self).partitions@, res.letter@)
                        &&& letters_of(final(self).partitions@) == letters_of(old(self).partitions@)
                        &&& final(self).password@.len() == 0
                        &&& final(self).recovery_key@.len() == 0
                        &&& opt_str(final(self).current) == first_locked(final(self).partitions@, 0)
                    } else {
                        &&& final(self).message@ == res.letter@ + " 解锁失败: "@ + res.message@
                        &&& final(self).partitions == old(self).partitions
                        &&& final(self).current == old(self).current
                    }
                },
            },
    {
        let res = match received {
            None => return,
            Some(r) => r,
        };
        self.loading = false;
        if !res.success {
            let mut m = str_to_string(res.letter.as_str());
            push_str(&mut m, " 解锁失败: ");
            push_str(&mut m, res.message.as_str());
            self.message = m;
            return;
        }
        let mut m = str_to_string(res.letter.as_str());
        push_str(&mut m, " 解锁成功");
        self.message = m;
        let ghost before = self.partitions@;
        match find_named(&self.partitions, res.letter.as_str()) {
            Some(i) => {
                let mut p = self.partitions.remove(i);
                p.status = VolumeStatus::EncryptedUnlocked;
                self.partitions.insert(i, p);
                assert forall|j: int| 0 <= j < before.len() implies #[trigger] self.partitions@[j].letter@ == before[j].letter@
                    && self.partitions@[j].status == (if j == i { VolumeStatus::EncryptedUnlocked } else { before[j].status }) by {
                    if j < i {
                        assert(self.partitions@[j] == before.remove(i as int)[j]);
                    } else if j > i {
                        assert(self.partitions@[j] == before.remove(i as int)[j - 1]);
                    }
                }
                assert(statuses(self.partitions@) =~= mark_unlocked(before, res.letter@));
                assert(letters_of(self.partitions@) =~= letters_of(before));
            },
            None => {
                assert(statuses(self.partitions@) =~= mark_unlocked(before, res.letter@));
            },
        }
        self.password = String::new();
        self.recovery_key = String::new();
        self.select_next_backup_bitlocker_partition();
    }

    /// Leaves the current partition out of the backup and moves on to the next
    /// locked one.
    pub fn skip_current_backup_bitlocker_partition(&mut self)
        ensures
            old(self).current is None ==> *final(self) == *old(self),
            old(self).current matches Some(c) ==> {
                &&& final(self).partitions@ == without(old(self).partitions@, c@)
                &&& final(self).message@ == "已跳过分区 "@ + c@
                &&& opt_str(final(self).current) == first_locked(final(self).partitions@, 0)
            },
    {
        let cur = match &self.current {
            None => return,
            Some(c) => str_to_string(c.as_str()),
        };
        let cv = to_chars(cur.as_str());
        let mut rest: Vec<BitLockerPartition> = Vec::new();
        std::mem::swap(&mut rest, &mut self.partitions);
        let mut kept: Vec<BitLockerPartition> = Vec::new();
        let ghost all = rest@;
        let mut i: usize = 0;
        let n = rest.len();
        while rest.len() > 0
            invariant
                rest@.len() + i == n,
                n == all.len(),
                rest@ == all.skip(i as int),
                kept@ == without(all.take(i as int), cur@),
                cv@ == cur@,
            decreases rest.len(),
        {
            let p = rest.remove(0);
            let pv = to_chars(p.letter.as_str());
            assert(all.take(i + 1) =~= all.take(i as int).push(p));
            assert(all.skip(i + 1) =~= rest@);
            if !chars_eq(pv.as_slice(), cv.as_slice()) {
                kept.push(p);
            }
            proof {
                assert(without(all.take(i as int).push(p), cur@) =~= if p.letter@ != cur@ {
                    without(all.take(i as int), cur@).push(p)
                } else {
                    without(all.take(i as int), cur@)
                }) by {
                    all.take(i as int).lemma_filter_push(p, |q: BitLockerPartition| q.letter@ != cur@);
                }
            }
            i = i + 1;
        }
        assert(all.take(n as int) =~= all);
        self.partitions = kept;
        let mut m = str_to_string("已跳过分区 ");
        push_str(&mut m, cur.as_str());
        self.message = m;
        self.select_next_backup_bitlocker_partition();
    }
}

} // verus!
