use vstd::prelude::*;
use crate::qemu::VmError;
use crate::text::{chars_of, decimal, decimal_digits, string_of, views, push_str, push_string};

verus! {

/// `char::is_whitespace`: the characters with Unicode's White_Space property.
pub open spec fn is_ws(c: char) -> bool {
    c == '\t' || c == '\n' || c == '\u{0B}' || c == '\u{0C}' || c == '\r' || c == ' '
        || c == '\u{85}' || c == '\u{A0}' || c == '\u{1680}'
        || ('\u{2000}' <= c && c <= '\u{200A}') || c == '\u{2028}' || c == '\u{2029}'
        || c == '\u{202F}' || c == '\u{205F}' || c == '\u{3000}'
}

/// The pieces of `s` between `'\n'` characters, read left to right; the last
/// piece is what follows the last `'\n'` (empty when `s` ends with one).
pub open spec fn pieces(s: Seq<char>) -> Seq<Seq<char>>
    decreases s.len(),
{
    if s.len() == 0 {
        seq![seq![]]
    } else if s.last() == '\n' {
        pieces(s.drop_last()).push(seq![])
    } else {
        let p = pieces(s.drop_last());
        p.update(p.len() - 1, p.last().push(s.last()))
    }
}

/// Scanning `s` left to right: the words completed so far, and the word in
/// progress.
pub open spec fn scan_words(s: Seq<char>) -> (Seq<Seq<char>>, Seq<char>)
    decreases s.len(),
{
    if s.len() == 0 {
        (seq![], seq![])
    } else {
        let (done, cur) = scan_words(s.drop_last());
        let c = s.last();
        if is_ws(c) {
            if cur.len() > 0 {
                (done.push(cur), seq![])
            } else {
                (done, seq![])
            }
        } else {
            (done, cur.push(c))
        }
    }
}

/// The maximal runs of non-whitespace characters of `s`, in order.
pub open spec fn words(s: Seq<char>) -> Seq<Seq<char>> {
    let (done, cur) = scan_words(s);
    if cur.len() > 0 {
        done.push(cur)
    } else {
        done
    }
}

/// The second word of each line that has one, in order.
pub open spec fn second_words(lines: Seq<Seq<char>>) -> Seq<Seq<char>>
    decreases lines.len(),
{
    if lines.len() == 0 {
        seq![]
    } else {
        let r = second_words(lines.drop_last());
        let w = words(lines.last());
        if w.len() >= 2 {
            r.push(w[1])
        } else {
            r
        }
    }
}

/// The snapshot names in the listing `out`: after two header lines, the
/// second word of every line. A `'\r'` before a `'\n'` is whitespace, and an
/// empty line has no words, so splitting at `'\n'` alone gives the same names
/// as splitting into text lines.
pub open spec fn snapshot_names(out: Seq<char>) -> Seq<Seq<char>> {
    let p = pieces(out);
    if p.len() <= 2 {
        seq![]
    } else {
        second_words(p.subrange(2, p.len() as int))
    }
}

pub open spec fn char_lists(v: Seq<Vec<char>>) -> Seq<Seq<char>> {
    v.map_values(|l: Vec<char>| l@)
}

/// `char::is_whitespace`.
pub fn is_whitespace(c: char) -> (r: bool)
    ensures
        r == is_ws(c),
{
    c == '\t' || c == '\n' || c == '\u{0B}' || c == '\u{0C}' || c == '\r' || c == ' '
        || c == '\u{85}' || c == '\u{A0}' || c == '\u{1680}'
        || ('\u{2000}' <= c && c <= '\u{200A}') || c == '\u{2028}' || c == '\u{2029}'
        || c == '\u{202F}' || c == '\u{205F}' || c == '\u{3000}'
}

/// Splits `s` at every `'\n'`.
pub fn split_pieces(s: &Vec<char>) -> (r: Vec<Vec<char>>)
    ensures
        char_lists(r@) == pieces(s@),
{
    let mut done: Vec<Vec<char>> = Vec::new();
    let mut cur: Vec<char> = Vec::new();
    let mut i: usize = 0;
    while i < s.len()
        invariant
            i <= s.len(),
            char_lists(done@).push(cur@) == pieces(s@.take(i as int)),
        decreases s.len() - i,
    {
        let c = s[i];
        let ghost prev = s@.take(i as int);
        assert(s@.take(i + 1).drop_last() == prev);
        if c == '\n' {
            let piece = cur;
            let ghost d0 = char_lists(done@);
            done.push(piece);
            cur = Vec::new();
            assert(char_lists(done@) == d0.push(piece@));
            assert(char_lists(done@).push(cur@) == pieces(prev).push(seq![]));
        } else {
            let ghost d0 = char_lists(done@);
            let ghost c0 = cur@;
            cur.push(c);
            assert(char_lists(done@) == d0);
            assert(d0.push(c0).update(d0.len() as int, c0.push(c)) =~= d0.push(c0.push(c)));
        }
        i += 1;
    }
    assert(s@.take(i as int) == s@);
    let ghost d0 = char_lists(done@);
    done.push(cur);
    assert(char_lists(done@) =~= d0.push(cur@));
    done
}

/// Splits `s` into its maximal runs of non-whitespace characters.
pub fn split_words(s: &Vec<char>) -> (r: Vec<Vec<char>>)
    ensures
        char_lists(r@) == words(s@),
{
    let mut done: Vec<Vec<char>> = Vec::new();
    let mut cur: Vec<char> = Vec::new();
    let mut i: usize = 0;
    while i < s.len()
        invariant
            i <= s.len(),
            (char_lists(done@), cur@) == scan_words(s@.take(i as int)),
        decreases s.len() - i,
    {
        let c = s[i];
        assert(s@.take(i + 1).drop_last() == s@.take(i as int));
        let ghost d0 = char_lists(done@);
        if is_whitespace(c) {
            if cur.len() > 0 {
                let w = cur;
                done.push(w);
                assert(char_lists(done@) =~= d0.push(w@));
                cur = Vec::new();
            } else {
                cur = Vec::new();
            }
        } else {
            cur.push(c);
            assert(char_lists(done@) == d0);
        }
        i += 1;
    }
    assert(s@.take(i as int) == s@);
    if cur.len() > 0 {
        let ghost d0 = char_lists(done@);
        let w = cur;
        done.push(w);
        assert(char_lists(done@) =~= d0.push(w@));
    }
    done
}

/// The snapshot names in the text of a snapshot listing.
pub fn parse_snapshot_list(out: &str) -> (r: Vec<String>)
    ensures
        views(r@) == snapshot_names(out@),
{
    let text = chars_of(out);
    let lines = split_pieces(&text);
    let mut names: Vec<String> = Vec::new();
    if lines.len() <= 2 {
        assert(views(names@) =~= Seq::<Seq<char>>::empty());
        return names;
    }
    let ghost p = char_lists(lines@);
    let mut i: usize = 2;
    assert(views(names@) =~= second_words(p.subrange(2, 2)));
    while i < lines.len()
        invariant
            2 <= i <= lines.len(),
            p == char_lists(lines@),
            views(names@) == second_words(p.subrange(2, i as int)),
        decreases lines.len() - i,
    {
        let w = split_words(&lines[i]);
        assert(p.subrange(2, i + 1).drop_last() == p.subrange(2, i as int));
        assert(p.subrange(2, i + 1).last() == lines@[i as int]@);
        if w.len() >= 2 {
            push_string(&mut names, string_of(w[1].as_slice()));
        }
        i += 1;
    }
    names
}

/// The disk-image utility's binary.
pub const IMAGE_TOOL: &'static str = "qemu-img";

/// A snapshot subcommand that changes a disk image.
#[derive(Debug, Clone, Copy, PartialEq, Eq, Structural)]
pub enum SnapshotOp {
    Create,
    Apply,
    Delete,
}

pub open spec fn op_flag(op: SnapshotOp) -> Seq<char> {
    match op {
        SnapshotOp::Create => "-c"@,
        SnapshotOp::Apply => "-a"@,
        SnapshotOp::Delete => "-d"@,
    }
}

/// Arguments of the disk-image utility that create, apply or delete the
/// snapshot `name` of `disk_path`.
pub fn snapshot_args(op: SnapshotOp, disk_path: &str, name: &str) -> (r: Vec<String>)
    ensures
        views(r@) == seq!["snapshot"@, op_flag(op), name@, disk_path@],
{
    let mut v: Vec<String> = Vec::new();
    push_str(&mut v, "snapshot");
    match op {
        SnapshotOp::Create => push_str(&mut v, "-c"),
        SnapshotOp::Apply => push_str(&mut v, "-a"),
        SnapshotOp::Delete => push_str(&mut v, "-d"),
    }
    push_str(&mut v, name);
    push_str(&mut v, disk_path);
    assert(views(v@) =~= seq!["snapshot"@, op_flag(op), name@, disk_path@]);
    v
}

/// Arguments of the disk-image utility that list the snapshots of `disk_path`.
pub fn list_args(disk_path: &str) -> (r: Vec<String>)
    ensures
        views(r@) == seq!["snapshot"@, "-l"@, disk_path@],
{
    let mut v: Vec<String> = Vec::new();
    push_str(&mut v, "snapshot");
    push_str(&mut v, "-l");
    push_str(&mut v, disk_path);
    assert(views(v@) =~= seq!["snapshot"@, "-l"@, disk_path@]);
    v
}

/// Arguments of the disk-image utility that create a qcow2 image of
/// `size_gb` gigabytes at `path`.
pub fn disk_image_args(path: &str, size_gb: u32) -> (r: Vec<String>)
    ensures
        views(r@) == seq!["create"@, "-f"@, "qcow2"@, path@, decimal_digits(size_gb as nat) + "G"@],
{
    let mut v: Vec<String> = Vec::new();
    push_str(&mut v, "create");
    push_str(&mut v, "-f");
    push_str(&mut v, "qcow2");
    push_str(&mut v, path);
    push_string(&mut v, decimal(size_gb as u64).concat("G"));
    assert(views(v@) =~= seq!["create"@, "-f"@, "qcow2"@, path@, decimal_digits(size_gb as nat) + "G"@]);
    v
}

/// The outcome of a tool run that changes a disk image: success, or its
/// standard error as the failure.
pub fn tool_outcome(success: bool, stderr: String) -> (r: Result<(), VmError>)
    ensures
        success ==> r is Ok,
        !success ==> r == Err::<(), VmError>(VmError::ToolExecution(stderr)),
{
    if success {
        Ok(())
    } else {
        Err(VmError::ToolExecution(stderr))
    }
}

/// The snapshot names from a listing run: a failed run lists none.
pub fn list_outcome(success: bool, stdout: &str) -> (r: Vec<String>)
    ensures
        success ==> views(r@) == snapshot_names(stdout@),
        !success ==> r@.len() == 0,
{
    if success {
        parse_snapshot_list(stdout)
    } else {
        Vec::new()
    }
}

} // verus!
