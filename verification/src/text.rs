//! Size caps for displayed text, and how command output is laid out.

use vstd::prelude::*;
use vstd::string::*;

verus! {

/// Longest inline text, in characters, that is displayed whole.
pub const TEXT_LIMIT: usize = 10_000;

/// Largest text file, in bytes, that is displayed whole (512 KiB).
pub const FILE_LIMIT: usize = 524_288;

/// Marker that follows inline text that was cut.
pub open spec fn text_marker() -> Seq<char> {
    "\n\n[Text truncated...]"@
}

/// Banner between standard output and a non-empty standard error.
pub open spec fn stderr_banner() -> Seq<char> {
    "\n\nSTDERR:\n"@
}

/// Marker that follows file text that was cut: the bytes of
/// `"\n\n[File truncated...]"`.
pub open spec fn file_marker() -> Seq<u8> {
    seq![
        10u8, 10u8, 91u8, 70u8, 105u8, 108u8, 101u8, 32u8, 116u8, 114u8, 117u8, 110u8, 99u8,
        97u8, 116u8, 101u8, 100u8, 46u8, 46u8, 46u8, 93u8,
    ]
}

/// What is displayed for an inline text payload: the payload itself up to
/// `TEXT_LIMIT` characters, else its first `TEXT_LIMIT` characters and the
/// marker.
pub open spec fn truncated_text(s: Seq<char>) -> Seq<char> {
    if s.len() > TEXT_LIMIT {
        s.subrange(0, TEXT_LIMIT as int) + text_marker()
    } else {
        s
    }
}

/// What is displayed for a command that ran: standard output alone when
/// standard error is empty, else both with the banner between them.
pub open spec fn combined_output(stdout: Seq<char>, stderr: Seq<char>) -> Seq<char> {
    if stderr.len() == 0 {
        stdout
    } else {
        stdout + stderr_banner() + stderr
    }
}

/// The last line boundary at or before `limit`: the greatest `k <= limit` that
/// is 0 or stands right behind a line feed.
pub open spec fn line_end_before(s: Seq<u8>, limit: int) -> int
    decreases limit,
{
    if limit <= 0 {
        0
    } else if s[limit - 1] == 10u8 {
        limit
    } else {
        line_end_before(s, limit - 1)
    }
}

/// What is displayed for a text file: the file itself up to `FILE_LIMIT`
/// bytes, else the lines that fit whole into the first `FILE_LIMIT` bytes and
/// the marker.
pub open spec fn capped_file_text(s: Seq<u8>) -> Seq<u8> {
    if s.len() > FILE_LIMIT {
        s.subrange(0, line_end_before(s, FILE_LIMIT as int)) + file_marker()
    } else {
        s
    }
}

/// `line_end_before` is a line boundary within the limit, and no later
/// boundary fits.
pub proof fn lemma_line_end_before(s: Seq<u8>, limit: int)
    requires
        0 <= limit <= s.len(),
    ensures
        0 <= line_end_before(s, limit) <= limit,
        line_end_before(s, limit) == 0 || s[line_end_before(s, limit) - 1] == 10u8,
        forall|j: int| line_end_before(s, limit) <= j < limit ==> s[j] != 10u8,
    decreases limit,
{
    if limit > 0 && s[limit - 1] != 10u8 {
        lemma_line_end_before(s, limit - 1);
    }
}

/// Whether two strings hold the same characters.
pub fn same_text(a: &str, b: &str) -> (same: bool)
    ensures
        same == (a@ == b@),
{
    let left = String::from_str(a);
    let right = String::from_str(b);
    left == right
}

/// Cuts an inline text payload for display.
pub fn truncate_text(text: &str) -> (shown: String)
    ensures
        shown@ == truncated_text(text@),
{
    let n: usize = text.unicode_len();
    if n > TEXT_LIMIT {
        let head = text.substring_char(0, TEXT_LIMIT);
        let mut shown = String::from_str(head);
        shown.append("\n\n[Text truncated...]");
        shown
    } else {
        String::from_str(text)
    }
}

/// Lays out the captured output of a command for display.
pub fn combine_output(stdout: &str, stderr: &str) -> (shown: String)
    ensures
        shown@ == combined_output(stdout@, stderr@),
{
    let mut shown = String::from_str(stdout);
    if stderr.unicode_len() != 0 {
        shown.append("\n\nSTDERR:\n");
        shown.append(stderr);
    }
    shown
}

/// Copies the first `n` bytes of `src`.
fn copy_prefix(src: &Vec<u8>, n: usize) -> (out: Vec<u8>)
    requires
        n <= src.len(),
    ensures
        out@ == src@.subrange(0, n as int),
{
    let mut out: Vec<u8> = Vec::new();
    let mut i: usize = 0;
    while i < n
        invariant
            i <= n <= src.len(),
            out@ == src@.subrange(0, i as int),
        decreases n - i,
    {
        out.push(src[i]);
        i += 1;
        assert(out@ =~= src@.subrange(0, i as int));
    }
    out
}

/// Caps the bytes of a text file for display. The caller reads one byte more
/// than `FILE_LIMIT` at least, so that a longer file is seen to be longer.
pub fn cap_text_file(content: &Vec<u8>) -> (shown: Vec<u8>)
    ensures
        shown@ == capped_file_text(content@),
{
    if content.len() <= FILE_LIMIT {
        let shown = copy_prefix(content, content.len());
        assert(shown@ =~= content@);
        return shown;
    }
    let mut k: usize = FILE_LIMIT;
    while k > 0 && content[k - 1] != 10u8
        invariant
            k <= FILE_LIMIT < content.len(),
            line_end_before(content@, FILE_LIMIT as int) == line_end_before(content@, k as int),
        decreases k,
    {
        k -= 1;
    }
    let mut shown = copy_prefix(content, k);
    let marker: [u8; 21] = [
        10u8, 10u8, 91u8, 70u8, 105u8, 108u8, 101u8, 32u8, 116u8, 114u8, 117u8, 110u8, 99u8,
        97u8, 116u8, 101u8, 100u8, 46u8, 46u8, 46u8, 93u8,
    ];
    let ghost body = shown@;
    let mut i: usize = 0;
    while i < 21
        invariant
            i <= 21,
            marker@ == file_marker(),
            shown@ == body + file_marker().subrange(0, i as int),
        decreases 21 - i,
    {
        shown.push(marker[i]);
        i += 1;
        assert(shown@ =~= body + file_marker().subrange(0, i as int));
    }
    assert(shown@ =~= body + file_marker());
    shown
}

} // verus!
