//! The metadata files read as text: `HEAD`, `config`, and the file that
//! stands in for a metadata directory and points at one.
//!
//! Nothing here opens a file. Each function takes the text of one and says
//! what it means. The `config` reader knows sections, `key = value` lines,
//! comments and blank lines; it knows neither continuation lines nor
//! included files.

use vstd::prelude::*;
use crate::branch::{
    upstream_result_view, BranchIdentity, BranchModel, ResolveError, UpstreamIdentity,
    UpstreamModel,
};
use crate::text::{
    chars_of, is_whitespace, last_segment, last_segment_start, lemma_last_segment_of_joined,
    lemma_lines_of_joined, lemma_lines_step, line_end, lines, optional_text, range_equals,
    range_starts_with, string_of_range, strip_prefix, trim, trim_end, trim_range, trim_start,
};

verus! {

/// What a symbolic `HEAD` starts with: `ref: `.
pub open spec fn ref_marker() -> Seq<char> {
    seq!['r', 'e', 'f', ':', ' ']
}

/// What the name of a local branch starts with: `refs/heads/`.
pub open spec fn heads_namespace() -> Seq<char> {
    seq!['r', 'e', 'f', 's', '/', 'h', 'e', 'a', 'd', 's', '/']
}

/// What the pointer line of a redirect file starts with: `gitdir:`.
pub open spec fn gitdir_marker() -> Seq<char> {
    seq!['g', 'i', 't', 'd', 'i', 'r', ':']
}

/// The key of the remote of a branch, with its equals sign: `remote =`.
pub open spec fn remote_key() -> Seq<char> {
    seq!['r', 'e', 'm', 'o', 't', 'e', ' ', '=']
}

/// The key of the tracked reference, with its equals sign: `merge =`.
pub open spec fn merge_key() -> Seq<char> {
    seq!['m', 'e', 'r', 'g', 'e', ' ', '=']
}

/// The header of the section of one branch: `[branch "<name>"]`.
pub open spec fn section_header(branch: Seq<char>) -> Seq<char> {
    seq!['[', 'b', 'r', 'a', 'n', 'c', 'h', ' ', '"'] + branch + seq!['"', ']']
}

/// What the text of `HEAD` says of the branch. Text that is empty but for
/// white space resolves to nothing: unborn. Text that starts with `ref: `
/// names a reference, whose last path segment is the branch. Anything else
/// stands for a commit: detached.
pub open spec fn head_file_branch(content: Seq<char>) -> BranchModel {
    let text = trim(content);
    if text.len() == 0 {
        BranchModel::Unborn
    } else {
        match strip_prefix(text, ref_marker()) {
            Some(target) => BranchModel::Named(last_segment(target)),
            None => BranchModel::Detached,
        }
    }
}

/// A `HEAD` file as it is written for a local branch, `ref: refs/heads/`,
/// the name and a line feed, names that branch, where the name is one path
/// segment and does not end in white space.
pub proof fn lemma_head_file_of_local_branch(name: Seq<char>)
    requires
        name.len() > 0,
        !is_whitespace(name.last()),
        forall|i: int| 0 <= i < name.len() ==> name[i] != '/',
    ensures
        head_file_branch(ref_marker() + heads_namespace() + name + seq!['\n'])
            == BranchModel::Named(name),
{
    let target = heads_namespace() + name;
    let text = ref_marker() + target;
    let content = ref_marker() + heads_namespace() + name + seq!['\n'];
    assert(content == text.push('\n'));
    assert(trim_start(content) == content);
    assert(content.drop_last() == text);
    assert(text.last() == name.last());
    assert(trim_end(text) == text);
    assert(trim_end(content) == text);
    assert(text.subrange(0, ref_marker().len() as int) == ref_marker());
    assert(text.skip(ref_marker().len() as int) == target);
    lemma_last_segment_of_joined(heads_namespace(), name);
}

/// The short name of a reference under `refs/heads/`; any other name as it
/// is.
pub open spec fn without_heads_namespace(reference: Seq<char>) -> Seq<char> {
    match strip_prefix(reference, heads_namespace()) {
        Some(short) => short,
        None => reference,
    }
}

/// What is known after some lines of `config`: whether the last section
/// header was that of the branch, and the last values seen for its two keys.
pub struct TrackingScan {
    pub in_section: bool,
    pub remote: Option<Seq<char>>,
    pub merge: Option<Seq<char>>,
}

impl TrackingScan {
    /// What is known before the first line.
    pub open spec fn start() -> TrackingScan {
        TrackingScan { in_section: false, remote: None, merge: None }
    }
}

/// What one more line of `config` changes. The line counts without the white
/// space around it. A line that starts with `[` is a section header, and the
/// section is that of the branch only if the line is `header` to the letter.
/// Outside that section every line is passed over, and inside it blank lines
/// and comments, which start with `#` or `;`. A line that starts with
/// `remote =` or `merge =` sets the value, what follows without the white
/// space around it; a later line overrides an earlier one.
pub open spec fn scan_line(header: Seq<char>, known: TrackingScan, raw: Seq<char>) -> TrackingScan {
    let line = trim(raw);
    if line.len() > 0 && line[0] == '[' {
        TrackingScan { in_section: line == header, ..known }
    } else if !known.in_section || line.len() == 0 || line[0] == '#' || line[0] == ';' {
        known
    } else if remote_key().is_prefix_of(line) {
        TrackingScan { remote: Some(trim(line.skip(remote_key().len() as int))), ..known }
    } else if merge_key().is_prefix_of(line) {
        TrackingScan { merge: Some(trim(line.skip(merge_key().len() as int))), ..known }
    } else {
        known
    }
}

/// [`scan_line`] for one header, as a step of a fold.
pub open spec fn scan_step(header: Seq<char>) -> spec_fn(TrackingScan, Seq<char>) -> TrackingScan {
    |known: TrackingScan, raw: Seq<char>| scan_line(header, known, raw)
}

/// What is known after all lines of `config`, read in order.
pub open spec fn scan_config(header: Seq<char>, config: Seq<char>) -> TrackingScan {
    lines(config).fold_left(TrackingScan::start(), scan_step(header))
}

/// The upstream that `config` gives the branch `branch`: its section has to
/// set both keys. The branch of the upstream is the tracked reference
/// without `refs/heads/`.
pub open spec fn config_upstream(branch: Seq<char>, config: Seq<char>) -> Result<
    UpstreamModel,
    ResolveError,
> {
    let known = scan_config(section_header(branch), config);
    if known.remote is Some && known.merge is Some {
        Ok(
            UpstreamModel {
                remote: known.remote->0,
                branch: without_heads_namespace(known.merge->0),
            },
        )
    } else {
        Err(ResolveError::NoUpstreamConfigured)
    }
}

/// The upstream that `config` gives to where `HEAD` stands. Only a named
/// branch can track anything.
pub open spec fn tracked_upstream(branch: BranchModel, config: Seq<char>) -> Result<
    UpstreamModel,
    ResolveError,
> {
    match branch {
        BranchModel::Named(name) => config_upstream(name, config),
        _ => Err(ResolveError::NoUpstreamConfigured),
    }
}

/// Whether `value` can stand as a value in `config`, to the letter: it holds
/// no line feed and neither starts nor ends with white space.
pub open spec fn is_plain_value(value: Seq<char>) -> bool {
    &&& forall|i: int| 0 <= i < value.len() ==> value[i] != '\n'
    &&& value.len() > 0 ==> !is_whitespace(value[0]) && !is_whitespace(value.last())
}

/// A line of `config` as it is written for a key of a branch: a tab, the
/// key with its equals sign, a space and the value.
pub open spec fn key_line(key: Seq<char>, value: Seq<char>) -> Seq<char> {
    seq!['\t'] + key + seq![' '] + value
}

/// Read as a line of `config`, a key line is the key followed by the value,
/// and the value is found again behind the key.
proof fn lemma_key_line(key: Seq<char>, value: Seq<char>)
    requires
        is_plain_value(value),
        key == remote_key() || key == merge_key(),
    ensures
        key.is_prefix_of(trim(key_line(key, value))),
        trim(key_line(key, value))[0] == key[0],
        trim(trim(key_line(key, value)).skip(key.len() as int)) == value,
{
    let raw = key_line(key, value);
    let body = key + seq![' '] + value;
    assert(raw.drop_first() == body);
    assert(!is_whitespace(body[0]));
    assert(trim_start(body) == body);
    assert(is_whitespace(raw[0]));
    assert(trim_start(raw) == body);
    if value.len() == 0 {
        assert(body.drop_last() == key);
        assert(body.last() == ' ');
        assert(!is_whitespace(key.last()));
        assert(trim_end(key) == key);
        assert(trim_end(body) == key);
        assert(key.subrange(0, key.len() as int) == key);
        assert(key.skip(key.len() as int) == Seq::<char>::empty());
        assert(value == Seq::<char>::empty());
    } else {
        assert(body.last() == value.last());
        assert(trim_end(body) == body);
        assert(body.subrange(0, key.len() as int) == key);
        let tail = body.skip(key.len() as int);
        assert(tail == seq![' '] + value);
        assert(tail.drop_first() == value);
        assert(trim_start(value) == value);
        assert(is_whitespace(tail[0]));
        assert(trim_start(tail) == value);
        assert(trim_end(value) == value);
    }
}

/// A `config` that holds the section of the branch as it is commonly
/// written, the header line and a line for each of the two keys, gives the
/// remote and the tracked reference that it names.
pub proof fn lemma_config_of_one_section(
    branch: Seq<char>,
    remote: Seq<char>,
    target: Seq<char>,
)
    requires
        forall|i: int| 0 <= i < branch.len() ==> branch[i] != '\n',
        is_plain_value(remote),
        is_plain_value(target),
    ensures
        config_upstream(
            branch,
            section_header(branch) + seq!['\n'] + key_line(remote_key(), remote) + seq!['\n']
                + key_line(merge_key(), target) + seq!['\n'],
        ) == Ok::<UpstreamModel, ResolveError>(
            UpstreamModel { remote, branch: without_heads_namespace(target) },
        ),
{
    let header = section_header(branch);
    let first = key_line(remote_key(), remote);
    let second = key_line(merge_key(), target);
    let none = Seq::<char>::empty();
    let config = header + seq!['\n'] + first + seq!['\n'] + second + seq!['\n'];
    let after_header = first + seq!['\n'] + second + seq!['\n'];
    let after_first = second + seq!['\n'];
    assert(config == header + seq!['\n'] + after_header);
    assert(after_header == first + seq!['\n'] + after_first);
    assert(after_first == second + seq!['\n'] + none);
    lemma_lines_of_joined(header, after_header);
    lemma_lines_of_joined(first, after_first);
    lemma_lines_of_joined(second, none);
    let all = lines(config);
    assert(lines(none) == Seq::<Seq<char>>::empty());
    assert(all == seq![header, first, second]);

    let step = scan_step(header);
    let start = TrackingScan::start();
    assert(trim(header) == header) by {
        assert(header[0] == '[');
        assert(header.last() == ']');
        assert(trim_start(header) == header);
        assert(trim_end(header) == header);
    }
    let in_section = step(start, header);
    assert(in_section == TrackingScan { in_section: true, remote: None, merge: None });
    lemma_key_line(remote_key(), remote);
    let with_remote = step(in_section, first);
    assert(with_remote == TrackingScan { in_section: true, remote: Some(remote), merge: None });
    lemma_key_line(merge_key(), target);
    assert(!remote_key().is_prefix_of(trim(second))) by {
        assert(trim(second)[0] == 'm');
        assert(remote_key()[0] == 'r');
        if remote_key().is_prefix_of(trim(second)) {
            assert(trim(second).subrange(0, remote_key().len() as int)[0] == remote_key()[0]);
        }
    }
    let with_both = step(with_remote, second);
    assert(with_both == TrackingScan {
        in_section: true,
        remote: Some(remote),
        merge: Some(target),
    });
    assert(all.fold_left(start, step) == with_both) by {
        reveal_with_fuel(Seq::fold_left, 4);
        assert(all.drop_last() == seq![header, first]);
        assert(all.drop_last().drop_last() == seq![header]);
        assert(all.drop_last().drop_last().drop_last() == Seq::<Seq<char>>::empty());
    }
}

/// The pointer of the first line that starts with `gitdir:`, without the
/// white space around it.
pub open spec fn first_pointer(lines: Seq<Seq<char>>) -> Option<Seq<char>>
    decreases lines.len(),
{
    if lines.len() == 0 {
        None
    } else {
        match strip_prefix(lines[0], gitdir_marker()) {
            Some(pointer) => Some(trim(pointer)),
            None => first_pointer(lines.drop_first()),
        }
    }
}

/// Where a redirect file points: the path behind `gitdir:`, as written.
pub open spec fn gitdir_pointer(content: Seq<char>) -> Option<Seq<char>> {
    first_pointer(lines(content))
}

/// What the text of `HEAD` says of the branch.
pub fn branch_from_head_file(content: &str) -> (branch: BranchIdentity)
    ensures
        branch@ == head_file_branch(content@),
{
    let v = chars_of(content);
    let (from, to) = trim_range(&v, 0, v.len());
    assert(v@.subrange(0, v@.len() as int) == v@);
    if from == to {
        return BranchIdentity::Unborn;
    }
    proof {
        reveal_strlit("ref: ");
    }
    let marker = chars_of("ref: ");
    assert(marker@ == ref_marker());
    if range_starts_with(&v, from, to, &marker) {
        let target = from + marker.len();
        let start = last_segment_start(&v, target, to);
        assert(v@.subrange(from as int, to as int).skip(ref_marker().len() as int) == v@.subrange(
            target as int,
            to as int,
        ));
        BranchIdentity::Named(string_of_range(&v, start, to))
    } else {
        BranchIdentity::Detached
    }
}

/// The characters of the section header of `branch`.
fn section_header_chars(branch: &str) -> (header: Vec<char>)
    ensures
        header@ == section_header(branch@),
{
    proof {
        reveal_strlit("[branch \"");
    }
    let mut header = chars_of("[branch \"");
    let ghost opening = header@;
    let name = chars_of(branch);
    let mut i: usize = 0;
    while i < name.len()
        invariant
            i <= name.len(),
            header@ == opening + name@.take(i as int),
        decreases name.len() - i,
    {
        header.push(name[i]);
        i += 1;
        assert(name@.take(i as int) == name@.take(i - 1).push(name@[i - 1]));
    }
    assert(name@.take(i as int) == name@);
    header.push('"');
    header.push(']');
    assert(header@ == section_header(branch@));
    header
}

/// The bounds of a value found in the text, as a character sequence.
spec fn value_at(v: Seq<char>, bounds: Option<(usize, usize)>) -> Option<Seq<char>> {
    match bounds {
        Some((from, to)) => Some(v.subrange(from as int, to as int)),
        None => None,
    }
}

/// Whether the bounds of a value lie within a text of `len` characters.
spec fn bounds_within(bounds: Option<(usize, usize)>, len: nat) -> bool {
    bounds matches Some((from, to)) ==> from <= to <= len
}

/// The upstream that `config` gives the branch named `branch`.
pub fn upstream_from_config(branch: &str, config: &str) -> (upstream: Result<
    UpstreamIdentity,
    ResolveError,
>)
    ensures
        upstream_result_view(upstream) == config_upstream(branch@, config@),
{
    let header = section_header_chars(branch);
    proof {
        reveal_strlit("remote =");
        reveal_strlit("merge =");
        reveal_strlit("refs/heads/");
    }
    let remote_chars = chars_of("remote =");
    let merge_chars = chars_of("merge =");
    let heads_chars = chars_of("refs/heads/");
    assert(remote_chars@ == remote_key());
    assert(merge_chars@ == merge_key());
    assert(heads_chars@ == heads_namespace());
    let v = chars_of(config);
    let ghost step = scan_step(header@);
    let mut in_section = false;
    let mut remote: Option<(usize, usize)> = None;
    let mut merge: Option<(usize, usize)> = None;
    let mut pos: usize = 0;
    proof {
        lines(v@).lemma_fold_left_alt(TrackingScan::start(), step);
        assert(v@.skip(0) == v@);
    }
    while pos < v.len()
        invariant
            pos <= v.len(),
            v@ == config@,
            header@ == section_header(branch@),
            remote_chars@ == remote_key(),
            merge_chars@ == merge_key(),
            step == scan_step(header@),
            bounds_within(remote, v@.len()),
            bounds_within(merge, v@.len()),
            lines(v@.skip(pos as int)).fold_left_alt(
                TrackingScan {
                    in_section,
                    remote: value_at(v@, remote),
                    merge: value_at(v@, merge),
                },
                step,
            ) == scan_config(header@, v@),
        decreases v.len() - pos,
    {
        let end = line_end(&v, pos);
        let (from, to) = trim_range(&v, pos, end);
        let ghost known = TrackingScan {
            in_section,
            remote: value_at(v@, remote),
            merge: value_at(v@, merge),
        };
        let ghost raw = v@.subrange(pos as int, end as int);
        let ghost line = v@.subrange(from as int, to as int);
        let next: usize = if end < v.len() {
            end + 1
        } else {
            end
        };
        proof {
            lemma_lines_step(v@, pos as int, end as int);
            let all = lines(v@.skip(pos as int));
            assert(all[0] == raw);
            assert(all.subrange(1, all.len() as int) == lines(v@.skip(next as int)));
            assert(all.fold_left_alt(known, step) == lines(v@.skip(next as int)).fold_left_alt(
                step(known, raw),
                step,
            ));
            assert(line == trim(raw));
        }
        if from < to && v[from] == '[' {
            assert(line[0] == v@[from as int]);
            in_section = range_equals(&v, from, to, &header);
        } else if !in_section || from == to || v[from] == '#' || v[from] == ';' {
            assert(from < to ==> line[0] == v@[from as int]);
        } else if range_starts_with(&v, from, to, &remote_chars) {
            assert(line[0] == v@[from as int]);
            let value = trim_range(&v, from + remote_chars.len(), to);
            assert(line.skip(remote_key().len() as int) == v@.subrange(
                from + remote_chars.len(),
                to as int,
            ));
            remote = Some(value);
        } else if range_starts_with(&v, from, to, &merge_chars) {
            assert(line[0] == v@[from as int]);
            let value = trim_range(&v, from + merge_chars.len(), to);
            assert(line.skip(merge_key().len() as int) == v@.subrange(
                from + merge_chars.len(),
                to as int,
            ));
            merge = Some(value);
        } else {
            assert(line[0] == v@[from as int]);
        }
        pos = next;
    }
    proof {
        assert(v@.skip(pos as int).len() == 0);
        assert(lines(v@.skip(pos as int)) == Seq::<Seq<char>>::empty());
    }
    match (remote, merge) {
        (Some((remote_from, remote_to)), Some((merge_from, merge_to))) => {
            let short_from: usize = if range_starts_with(&v, merge_from, merge_to, &heads_chars) {
                merge_from + heads_chars.len()
            } else {
                merge_from
            };
            assert(v@.subrange(short_from as int, merge_to as int) == without_heads_namespace(
                v@.subrange(merge_from as int, merge_to as int),
            ));
            Ok(
                UpstreamIdentity {
                    remote: string_of_range(&v, remote_from, remote_to),
                    branch: string_of_range(&v, short_from, merge_to),
                },
            )
        },
        _ => Err(ResolveError::NoUpstreamConfigured),
    }
}

/// Where a redirect file points, if it holds a pointer line.
pub fn gitdir_from_redirect(content: &str) -> (pointer: Option<String>)
    ensures
        optional_text(pointer) == gitdir_pointer(content@),
{
    proof {
        reveal_strlit("gitdir:");
    }
    let marker = chars_of("gitdir:");
    assert(marker@ == gitdir_marker());
    let v = chars_of(content);
    let mut pos: usize = 0;
    assert(v@.skip(0) == v@);
    while pos < v.len()
        invariant
            pos <= v.len(),
            v@ == content@,
            marker@ == gitdir_marker(),
            first_pointer(lines(v@.skip(pos as int))) == gitdir_pointer(v@),
        decreases v.len() - pos,
    {
        let end = line_end(&v, pos);
        let next: usize = if end < v.len() {
            end + 1
        } else {
            end
        };
        proof {
            lemma_lines_step(v@, pos as int, end as int);
            let all = lines(v@.skip(pos as int));
            assert(all[0] == v@.subrange(pos as int, end as int));
            assert(all.drop_first() == lines(v@.skip(next as int)));
        }
        if range_starts_with(&v, pos, end, &marker) {
            let (from, to) = trim_range(&v, pos + marker.len(), end);
            assert(v@.subrange(pos as int, end as int).skip(gitdir_marker().len() as int)
                == v@.subrange(pos + marker.len(), end as int));
            return Some(string_of_range(&v, from, to));
        }
        pos = next;
    }
    proof {
        assert(v@.skip(pos as int).len() == 0);
        assert(lines(v@.skip(pos as int)) == Seq::<Seq<char>>::empty());
    }
    None
}

} // verus!
