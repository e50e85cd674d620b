//! The partition copy tool: choosing a source and a target partition, starting
//! (or resuming) the copy, and following its progress and log.
use vstd::prelude::*;
use crate::text::{chars_eq, dec, find_chars_from, find_from, push_chars, push_dec, push_str, starts_with, starts_with_chars, str_to_string, to_chars};

verus! {

/// A partition that can take part in a copy.
pub struct CopyablePartition {
    pub letter: String,
    pub label: String,
    pub total_size_mb: u64,
    pub used_size_mb: u64,
    pub has_system: bool,
}

/// A progress report of a running copy.
pub struct CopyProgress {
    pub current_file: String,
    pub copied_count: usize,
    pub skipped_count: usize,
    pub failed_count: usize,
    pub total_count: usize,
    pub completed: bool,
    pub error: Option<String>,
}

pub struct PartitionCopyDialog {
    pub show: bool,
    pub partitions: Vec<CopyablePartition>,
    pub partitions_loading: bool,
    pub source: Option<String>,
    pub target: Option<String>,
    /// The copy between the chosen partitions can be resumed.
    pub is_resume: bool,
    pub copying: bool,
    pub log: String,
    pub message: String,
    pub progress: Option<CopyProgress>,
}

/// The copy to run in the background.
pub struct CopyJob {
    pub source: String,
    pub target: String,
    pub resume: bool,
}

// ---------------------------------------------------------------------------
// The log and its size in bytes
// ---------------------------------------------------------------------------

/// The UTF-8 length of a character.
pub open spec fn char_len(c: char) -> nat {
    if (c as u32) <= 0x7F {
        1
    } else if (c as u32) <= 0x7FF {
        2
    } else if (c as u32) <= 0xFFFF {
        3
    } else {
        4
    }
}

/// The UTF-8 length of a text (what `str::len` gives).
pub open spec fn byte_len(s: Seq<char>) -> nat
    decreases s.len(),
{
    if s.len() == 0 {
        0
    } else {
        byte_len(s.drop_last()) + char_len(s.last())
    }
}

/// The number of characters whose UTF-8 encoding ends exactly at byte `b`, if
/// `b` falls between two characters, from character `i` on.
pub open spec fn char_at_byte(s: Seq<char>, b: int, i: int) -> Option<int>
    decreases s.len() - i,
{
    if i < 0 || i > s.len() {
        None
    } else if byte_len(s.take(i)) == b {
        Some(i)
    } else if byte_len(s.take(i)) > b || i == s.len() {
        None
    } else {
        char_at_byte(s, b, i + 1)
    }
}

/// The log's size limit in bytes.
pub const LOG_LIMIT: u64 = 100_000;

/// The log is trimmed where it grew past 100000 bytes: from byte `L` − 50000 on
/// (`L` its length) the part up to and including the first newline is dropped
/// with everything before it; without such a newline the log stays.
pub open spec fn trimmed_log(s: Seq<char>) -> Seq<char> {
    if byte_len(s) <= LOG_LIMIT {
        s
    } else {
        match char_at_byte(s, byte_len(s) - LOG_LIMIT / 2, 0) {
            Some(k) => match find_from(s, seq!['\n'], k) {
                Some(j) => s.skip(j + 1),
                None => s,
            },
            None => s,
        }
    }
}

/// Trimming can be done: a log past the limit has a character boundary at the
/// cut (else slicing there would panic).
pub open spec fn trimmable(s: Seq<char>) -> bool {
    byte_len(s) > LOG_LIMIT ==> char_at_byte(s, byte_len(s) - LOG_LIMIT / 2, 0) is Some
}

pub proof fn lemma_byte_len_take(s: Seq<char>, i: int)
    requires
        0 <= i < s.len(),
    ensures
        byte_len(s.take(i + 1)) == byte_len(s.take(i)) + char_len(s[i]),
{
    assert(s.take(i + 1).drop_last() =~= s.take(i));
}

fn char_len_exec(c: char) -> (r: u128)
    ensures
        r == char_len(c),
{
    let v = c as u32;
    if v <= 0x7F {
        1
    } else if v <= 0x7FF {
        2
    } else if v <= 0xFFFF {
        3
    } else {
        4
    }
}

proof fn lemma_byte_len_bound(s: Seq<char>)
    ensures
        byte_len(s) <= 4 * s.len(),
    decreases s.len(),
{
    if s.len() > 0 {
        lemma_byte_len_bound(s.drop_last());
    }
}

/// Whether the copy log can be trimmed (see [`trimmable`]): a caller tests this
/// before [`trim_copy_log`].
pub fn is_trimmable(log: &str) -> (r: bool)
    ensures
        r == trimmable(log@),
{
    let v = to_chars(log);
    let mut total: u128 = 0;
    let mut i: usize = 0;
    while i < v.len()
        invariant
            i <= v.len(),
            v@ == log@,
            total == byte_len(v@.take(i as int)),
            total <= 4 * i,
        decreases v.len() - i,
    {
        proof {
            lemma_byte_len_take(v@, i as int);
        }
        total = total + char_len_exec(v[i]);
        i = i + 1;
    }
    assert(v@.take(v.len() as int) =~= v@);
    if total <= 100_000 {
        return true;
    }
    let cut = total - 50_000;
    let mut acc: u128 = 0;
    let mut k: usize = 0;
    assert(v@.take(0) =~= Seq::<char>::empty());
    while acc < cut && k < v.len()
        invariant
            k <= v.len(),
            v@ == log@,
            acc == byte_len(v@.take(k as int)),
            acc <= 4 * k,
            cut as int == byte_len(v@) - 50_000,
            char_at_byte(v@, cut as int, 0) == char_at_byte(v@, cut as int, k as int),
        decreases v.len() - k,
    {
        proof {
            lemma_byte_len_take(v@, k as int);
        }
        acc = acc + char_len_exec(v[k]);
        k = k + 1;
    }
    if k == v.len() {
        assert(v@.take(k as int) =~= v@);
    }
    acc == cut
}

/// Trims the copy log (see [`trimmed_log`]).
pub fn trim_copy_log(log: &str) -> (r: String)
    requires
        trimmable(log@),
    ensures
        r@ == trimmed_log(log@),
{
    let v = to_chars(log);
    let mut total: u128 = 0;
    let mut i: usize = 0;
    while i < v.len()
        invariant
            i <= v.len(),
            v@ == log@,
            total == byte_len(v@.take(i as int)),
            total <= 4 * i,
        decreases v.len() - i,
    {
        proof {
            lemma_byte_len_take(v@, i as int);
        }
        total = total + char_len_exec(v[i]);
        i = i + 1;
    }
    assert(v@.take(v.len() as int) =~= v@);
    if total <= 100_000 {
        return str_to_string(log);
    }
    let cut = total - 50_000;
    let mut acc: u128 = 0;
    let mut k: usize = 0;
    assert(v@.take(0) =~= Seq::<char>::empty());
    while acc < cut && k < v.len()
        invariant
            k <= v.len(),
            v@ == log@,
            acc == byte_len(v@.take(k as int)),
            acc <= 4 * k,
            cut as int == byte_len(v@) - 50_000,
            char_at_byte(v@, cut as int, 0) == char_at_byte(v@, cut as int, k as int),
        decreases v.len() - k,
    {
        proof {
            lemma_byte_len_take(v@, k as int);
        }
        acc = acc + char_len_exec(v[k]);
        k = k + 1;
    }
    // The boundary exists (the caller promised it), so the scan stopped on it.
    assert(acc == cut);
    let nl = vec!['\n'];
    assert(nl@ =~= seq!['\n']);
    match find_chars_from(v.as_slice(), nl.as_slice(), k) {
        Some(j) => {
            proof {
                crate::text::lemma_find_from(v@, seq!['\n'], k as int);
            }
            crate::text::chars_to_string(crate::text::slice_chars(v.as_slice(), j + 1, v.len()).as_slice())
        },
        None => str_to_string(log),
    }
}

// ---------------------------------------------------------------------------
// The dialog
// ---------------------------------------------------------------------------

pub open spec fn opt_eq(a: Option<String>, b: Option<String>) -> bool {
    match (a, b) {
        (Some(x), Some(y)) => x@ == y@,
        (None, None) => true,
        _ => false,
    }
}

/// A copy can be started: both partitions chosen, different, and the list read.
pub open spec fn copy_startable(d: PartitionCopyDialog) -> bool {
    d.source is Some && d.target is Some && !opt_eq(d.source, d.target) && !d.partitions_loading
}

/// The log line of a progress report, if it names a file being worked on.
pub open spec fn log_line(p: CopyProgress) -> Seq<char> {
    if p.current_file@.len() > 0 && !starts_with(p.current_file@, "正在"@) {
        (if p.completed { "[完成] "@ } else { "[复制] "@ }) + p.current_file@ + "\n"@
    } else {
        Seq::empty()
    }
}

fn log_line_of(p: &CopyProgress) -> (r: String)
    ensures
        r@ == log_line(*p),
{
    let started = starts_with_chars(to_chars(p.current_file.as_str()).as_slice(), to_chars("正在").as_slice());
    if to_chars(p.current_file.as_str()).len() > 0 && !started {
        let mut line = str_to_string(if p.completed { "[完成] " } else { "[复制] " });
        push_str(&mut line, p.current_file.as_str());
        push_str(&mut line, "\n");
        line
    } else {
        String::new()
    }
}

pub open spec fn progress_message(p: CopyProgress) -> Option<Seq<char>> {
    if p.completed {
        Some(if p.failed_count > 0 {
            "复制完成！已复制 "@ + dec(p.copied_count as nat) + " 个文件，跳过 "@ + dec(p.skipped_count as nat) + " 个，失败 "@
                + dec(p.failed_count as nat) + " 个"@
        } else {
            "复制完成！已复制 "@ + dec(p.copied_count as nat) + " 个文件，跳过 "@ + dec(p.skipped_count as nat) + " 个（已存在）"@
        })
    } else if p.error is Some {
        Some("错误: "@ + p.error->0@)
    } else {
        Some("正在复制 "@ + dec(p.copied_count as nat) + "/"@ + dec(p.total_count as nat) + "（跳过 "@ + dec(p.skipped_count as nat)
            + "）: "@ + p.current_file@)
    }
}

fn same_text(a: &Option<String>, b: &Option<String>) -> (r: bool)
    ensures
        r == opt_eq(*a, *b),
{
    match (a, b) {
        (Some(x), Some(y)) => {
            let xv = to_chars(x.as_str());
            let yv = to_chars(y.as_str());
            chars_eq(xv.as_slice(), yv.as_slice())
        },
        (None, None) => true,
        _ => false,
    }
}

impl PartitionCopyDialog {
    pub fn new() -> (r: PartitionCopyDialog)
        ensures
            !r.show,
            r.partitions@.len() == 0,
            !r.partitions_loading,
            r.source is None,
            r.target is None,
            !r.is_resume,
            !r.copying,
            r.log@.len() == 0,
            r.message@.len() == 0,
            r.progress is None,
    {
        PartitionCopyDialog {
            show: false,
            partitions: Vec::new(),
            partitions_loading: false,
            source: None,
            target: None,
            is_resume: false,
            copying: false,
            log: String::new(),
            message: String::new(),
            progress: None,
        }
    }

    /// Whether the copy button is enabled.
    pub fn can_start_copy(&self) -> (r: bool)
        ensures
            r == copy_startable(*self),
    {
        self.source.is_some() && self.target.is_some() && !same_text(&self.source, &self.target) && !self.partitions_loading
    }

    /// The copy button says whether it resumes.
    pub fn copy_button_text(&self) -> (r: &'static str)
        ensures
            r@ == (if self.is_resume { "继续对拷"@ } else { "开始对拷"@ }),
    {
        if self.is_resume { "继续对拷" } else { "开始对拷" }
    }

    /// Starts listing the partitions, unless a list is being read (`false`).
    pub fn start_load_copyable_partitions(&mut self) -> (r: bool)
        ensures
            r == !old(self).partitions_loading,
            final(self).partitions_loading,
            r ==> final(self).partitions@.len() == 0,
            !r ==> final(self).partitions == old(self).partitions,
            final(self).source == old(self).source,
            final(self).target == old(self).target,
            final(self).is_resume == old(self).is_resume,
            final(self).copying == old(self).copying,
            final(self).log == old(self).log,
            final(self).message == old(self).message,
            final(self).show == old(self).show,
    {
        if self.partitions_loading {
            return false;
        }
        self.partitions_loading = true;
        self.partitions = Vec::new();
        true
    }

    /// A copy can be resumed only between two chosen partitions, when the copy
    /// tool says so (`can_resume`, for the chosen pair).
    pub fn update_partition_copy_resume_state(&mut self, can_resume: bool)
        ensures
            final(self).is_resume == (old(self).source is Some && old(self).target is Some && can_resume),
            final(self).source == old(self).source,
            final(self).target == old(self).target,
            final(self).partitions == old(self).partitions,
            final(self).partitions_loading == old(self).partitions_loading,
            final(self).copying == old(self).copying,
            final(self).log == old(self).log,
            final(self).message == old(self).message,
    {
        self.is_resume = self.source.is_some() && self.target.is_some() && can_resume;
    }

    /// Starts the copy: both partitions must be chosen and differ, and the target
    /// must have room (`space`, the copy tool's check: its error is shown as is).
    pub fn start_partition_copy(&mut self, space: Result<(), String>) -> (r: Option<CopyJob>)
        ensures
            old(self).source is None ==> r is None && final(self).message@ == "请选择源分区"@,
            old(self).source is Some && old(self).target is None ==> r is None
                && final(self).message@ == "请选择目标分区"@,
            old(self).source is Some && old(self).target is Some && opt_eq(old(self).source, old(self).target)
                ==> r is None && final(self).message@ == "错误: 源分区和目标分区不能相同！"@,
            old(self).source is Some && old(self).target is Some && !opt_eq(old(self).source, old(self).target)
                ==> match space {
                Err(e) => r is None && final(self).message@ == e@,
                Ok(()) => (r matches Some(j) && j.source@ == old(self).source->0@ && j.target@ == old(self).target->0@
                    && j.resume == old(self).is_resume) && final(self).copying && final(self).log@.len() == 0
                    && final(self).message@ == "正在准备复制..."@,
            },
            r is None ==> final(self).copying == old(self).copying && final(self).log == old(self).log,
            final(self).source == old(self).source,
            final(self).target == old(self).target,
            final(self).partitions == old(self).partitions,
    {
        let source = match &self.source {
            None => {
                self.message = str_to_string("请选择源分区");
                return None;
            },
            Some(s) => str_to_string(s.as_str()),
        };
        let target = match &self.target {
            None => {
                self.message = str_to_string("请选择目标分区");
                return None;
            },
            Some(t) => str_to_string(t.as_str()),
        };
        if same_text(&self.source, &self.target) {
            self.message = str_to_string("错误: 源分区和目标分区不能相同！");
            return None;
        }
        if let Err(e) = space {
            self.message = e;
            return None;
        }
        self.copying = true;
        self.log = String::new();
        self.message = str_to_string("正在准备复制...");
        Some(CopyJob { source, target, resume: self.is_resume })
    }

    /// Takes the results that came: a new partition list (the resume state is then
    /// set from `can_resume`), and the progress reports of the copy, of which only
    /// the latest counts: its file goes to the log (trimmed when too long), its
    /// message is shown, and a finished or failed copy ends. A finished copy asks for
    /// the list again: `true` means the caller starts reading it.
    /// Whether [`check_partition_copy_async_operations`](Self::check_partition_copy_async_operations)
    /// can take these progress reports: the log with the last report's line added
    /// can be trimmed (see [`trimmable`]).
    pub fn can_take_progress(&self, progress: &Vec<CopyProgress>) -> (r: bool)
        ensures
            r == (progress@.len() > 0 && log_line(progress@.last()).len() > 0 ==> trimmable(
                self.log@ + log_line(progress@.last()),
            )),
    {
        if progress.len() == 0 {
            return true;
        }
        let p = &progress[progress.len() - 1];
        let line = log_line_of(p);
        if to_chars(line.as_str()).len() == 0 {
            return true;
        }
        let mut log = str_to_string(self.log.as_str());
        push_str(&mut log, line.as_str());
        is_trimmable(log.as_str())
    }

    pub fn check_partition_copy_async_operations(
        &mut self,
        partitions: Option<Vec<CopyablePartition>>,
        can_resume: bool,
        progress: Vec<CopyProgress>,
    ) -> (reload: bool)
        requires
            progress@.len() > 0 && log_line(progress@.last()).len() > 0 ==> trimmable(
                old(self).log@ + log_line(progress@.last()),
            ),
        ensures
            partitions is Some ==> final(self).is_resume == (old(self).source is Some && old(self).target is Some
                && can_resume),
            partitions is None ==> final(self).is_resume == old(self).is_resume,
            final(self).source == old(self).source,
            final(self).target == old(self).target,
            progress@.len() == 0 ==> {
                &&& final(self).log == old(self).log
                &&& final(self).message == old(self).message
                &&& final(self).copying == old(self).copying
                &&& !reload
                &&& final(self).partitions_loading == (if partitions is Some { false } else { old(self).partitions_loading })
            },
            progress@.len() > 0 ==> {
                let p = progress@.last();
                let listed_loading = if partitions is Some { false } else { old(self).partitions_loading };
                &&& final(self).log@ == (if log_line(p).len() > 0 {
                    trimmed_log(old(self).log@ + log_line(p))
                } else {
                    old(self).log@
                })
                &&& final(self).message@ == progress_message(p)->0
                &&& final(self).copying == (if p.completed || p.error is Some { false } else { old(self).copying })
                &&& reload == (p.completed && !listed_loading)
                &&& final(self).partitions_loading == (listed_loading || p.completed)
            },
    {
        if let Some(ps) = partitions {
            self.partitions = ps;
            self.partitions_loading = false;
            self.update_partition_copy_resume_state(can_resume);
        }
        let mut progress = progress;
        if progress.len() == 0 {
            return false;
        }
        let p = progress.pop().unwrap();
        let mut reload = false;
        let started = starts_with_chars(to_chars(p.current_file.as_str()).as_slice(), to_chars("正在").as_slice());
        if to_chars(p.current_file.as_str()).len() > 0 && !started {
            let mut line = str_to_string(if p.completed { "[完成] " } else { "[复制] " });
            push_str(&mut line, p.current_file.as_str());
            push_str(&mut line, "\n");
            let mut log = str_to_string(self.log.as_str());
            push_str(&mut log, line.as_str());
            self.log = trim_copy_log(log.as_str());
        }
        if p.completed {
            let mut m = str_to_string("复制完成！已复制 ");
            push_dec(&mut m, p.copied_count as u64);
            push_str(&mut m, " 个文件，跳过 ");
            push_dec(&mut m, p.skipped_count as u64);
            if p.failed_count > 0 {
                push_str(&mut m, " 个，失败 ");
                push_dec(&mut m, p.failed_count as u64);
                push_str(&mut m, " 个");
            } else {
                push_str(&mut m, " 个（已存在）");
            }
            self.message = m;
            self.copying = false;
            reload = self.start_load_copyable_partitions();
        } else if let Some(e) = &p.error {
            let mut m = str_to_string("错误: ");
            push_str(&mut m, e.as_str());
            self.message = m;
            self.copying = false;
        } else {
            let mut m = str_to_string("正在复制 ");
            push_dec(&mut m, p.copied_count as u64);
            push_str(&mut m, "/");
            push_dec(&mut m, p.total_count as u64);
            push_str(&mut m, "（跳过 ");
            push_dec(&mut m, p.skipped_count as u64);
            push_str(&mut m, "）: ");
            push_str(&mut m, p.current_file.as_str());
            self.message = m;
        }
        self.progress = Some(p);
        reload
    }
}

} // verus!
