use vstd::prelude::*;
use vstd::arithmetic::power::pow;
use crate::text::concat;

verus! {

/// The escaped form of a JSON Pointer segment: `~` becomes `~0`, `/` becomes `~1`.
pub open spec fn escape_segment(s: Seq<char>) -> Seq<char>
    decreases s.len(),
{
    if s.len() == 0 {
        seq![]
    } else {
        let c = s.last();
        escape_segment(s.drop_last()) + if c == '~' {
            seq!['~', '0']
        } else if c == '/' {
            seq!['~', '1']
        } else {
            seq![c]
        }
    }
}

pub fn escape_pointer_segment(s: &str) -> (r: String)
    ensures
        r@ == escape_segment(s@),
{
    let mut out = String::new();
    for c in it: s.chars()
        invariant
            it.seq() == s@,
            out@ == escape_segment(s@.take(it.index() as int)),
    {
        proof {
            assert(s@.take(it.index() + 1).drop_last() == s@.take(it.index() as int));
        }
        if c == '~' {
            out.push('~');
            out.push('0');
        } else if c == '/' {
            out.push('~');
            out.push('1');
        } else {
            out.push(c);
        }
    }
    proof {
        assert(s@.take(s@.len() as int) == s@);
    }
    out
}

/// The lowercase hexadecimal digit of a value below 16.
pub open spec fn hex_digit(n: int) -> char {
    if n < 10 { (48 + n) as char } else { (87 + n) as char }
}

/// Nibble `j` of `id`, counting from the most significant one.
pub open spec fn nibble(id: u128, j: int) -> int {
    (id as int / pow(16, (31 - j) as nat)) % 16
}

/// Which nibble is shown at position `k` of the hyphenated form.
pub open spec fn hex_position(k: int) -> int {
    if k < 8 { k } else if k < 13 { k - 1 } else if k < 18 { k - 2 } else if k < 23 { k - 3 } else { k - 4 }
}

/// The hyphenated lowercase form of a UUID: 32 hexadecimal digits, most
/// significant first, with hyphens after the 8th, 12th, 16th and 20th.
pub open spec fn uuid_text(id: u128) -> Seq<char> {
    Seq::new(36, |k: int| if k == 8 || k == 13 || k == 18 || k == 23 { '-' } else { hex_digit(nibble(id, hex_position(k))) })
}

/// `uuid::Uuid::from_u128(id).to_string()`: the uuid crate builds the UUID
/// from the big-endian bytes of `id` and displays it in the hyphenated
/// lowercase form, which this contract states.
#[verifier::external_body]
pub(crate) fn uuid_string(id: u128) -> (r: String)
    ensures
        r@ == uuid_text(id),
{
    uuid::Uuid::from_u128(id).to_string()
}

/// The collections a client mirrors through patches.
#[derive(Debug, Clone, Copy, PartialEq, Eq, Hash, Structural)]
pub enum PatchCollection {
    ProjectStatusEntries,
    ProjectStatusStageRuns,
    ProjectStatusStageAttempts,
    ProjectStatusStageResults,
    ProjectStatusWorkflowRuns,
    ProjectStatusStageContinuations,
    ExecutionProcesses,
    Workspaces,
}

/// The pointer of each collection.
pub open spec fn collection_prefix(c: PatchCollection) -> Seq<char> {
    match c {
        PatchCollection::ProjectStatusEntries => "/project_status_entries/"@,
        PatchCollection::ProjectStatusStageRuns => "/project_status_stage_runs/"@,
        PatchCollection::ProjectStatusStageAttempts => "/project_status_stage_attempts/"@,
        PatchCollection::ProjectStatusStageResults => "/project_status_stage_results/"@,
        PatchCollection::ProjectStatusWorkflowRuns => "/project_status_workflow_runs/"@,
        PatchCollection::ProjectStatusStageContinuations => "/project_status_stage_continuations/"@,
        PatchCollection::ExecutionProcesses => "/execution_processes/"@,
        PatchCollection::Workspaces => "/workspaces/"@,
    }
}

impl PatchCollection {
    pub fn prefix(self) -> (r: &'static str)
        ensures
            r@ == collection_prefix(self),
    {
        match self {
            PatchCollection::ProjectStatusEntries => "/project_status_entries/",
            PatchCollection::ProjectStatusStageRuns => "/project_status_stage_runs/",
            PatchCollection::ProjectStatusStageAttempts => "/project_status_stage_attempts/",
            PatchCollection::ProjectStatusStageResults => "/project_status_stage_results/",
            PatchCollection::ProjectStatusWorkflowRuns => "/project_status_workflow_runs/",
            PatchCollection::ProjectStatusStageContinuations => "/project_status_stage_continuations/",
            PatchCollection::ExecutionProcesses => "/execution_processes/",
            PatchCollection::Workspaces => "/workspaces/",
        }
    }
}

/// The pointer of the record with id `id` in a collection.
pub fn resource_path(collection: PatchCollection, id: u128) -> (r: String)
    ensures
        r@ == collection_prefix(collection) + escape_segment(uuid_text(id)),
{
    let text = uuid_string(id);
    let segment = escape_pointer_segment(text.as_str());
    concat(collection.prefix(), segment.as_str())
}

/// The pointer of all pending approvals.
pub fn pending_root_path() -> (r: String)
    ensures
        r@ == "/pending"@,
{
    "/pending".to_owned()
}

/// The pointer of the pending approval `approval_id`.
pub fn pending_path(approval_id: &str) -> (r: String)
    ensures
        r@ == "/pending/"@ + escape_segment(approval_id@),
{
    let segment = escape_pointer_segment(approval_id);
    concat("/pending/", segment.as_str())
}

/// The pointer every scratch patch uses.
pub fn scratch_path() -> (r: String)
    ensures
        r@ == "/scratch"@,
{
    "/scratch".to_owned()
}

/// Escaping leaves text without `~` and `/` unchanged.
pub proof fn plain_segments_are_not_escaped(s: Seq<char>)
    requires
        forall|i: int| 0 <= i < s.len() ==> s[i] != '~' && s[i] != '/',
    ensures
        escape_segment(s) == s,
    decreases s.len(),
{
    if s.len() > 0 {
        plain_segments_are_not_escaped(s.drop_last());
        assert(s.drop_last().push(s.last()) =~= s);
    }
}

/// An escaped segment holds no `/`, so it stays a single pointer segment.
pub proof fn escaped_segments_hold_no_slash(s: Seq<char>)
    ensures
        forall|i: int| 0 <= i < escape_segment(s).len() ==> escape_segment(s)[i] != '/',
    decreases s.len(),
{
    if s.len() > 0 {
        escaped_segments_hold_no_slash(s.drop_last());
        let c = s.last();
        let tail = if c == '~' { seq!['~', '0'] } else if c == '/' { seq!['~', '1'] } else { seq![c] };
        let e = escape_segment(s);
        assert(e == escape_segment(s.drop_last()) + tail);
        assert forall|i: int| 0 <= i < e.len() implies e[i] != '/' by {
            if i < escape_segment(s.drop_last()).len() {
            } else {
                assert(e[i] == tail[i - escape_segment(s.drop_last()).len()]);
            }
        }
    }
}

/// The segment an escaped JSON Pointer segment stands for: `~0` reads as `~`
/// and `~1` as `/`.
pub open spec fn unescape_segment(t: Seq<char>) -> Seq<char>
    decreases t.len(),
{
    if t.len() == 0 {
        seq![]
    } else if t.len() >= 2 && t[t.len() - 2] == '~' && t.last() == '0' {
        unescape_segment(t.take(t.len() - 2)).push('~')
    } else if t.len() >= 2 && t[t.len() - 2] == '~' && t.last() == '1' {
        unescape_segment(t.take(t.len() - 2)).push('/')
    } else {
        unescape_segment(t.drop_last()).push(t.last())
    }
}

proof fn escaped_segment_ends_without_tilde(s: Seq<char>)
    ensures
        escape_segment(s).len() > 0 ==> escape_segment(s).last() != '~',
    decreases s.len(),
{
    if s.len() > 0 {
        escaped_segment_ends_without_tilde(s.drop_last());
    }
}

/// Reading an escaped segment back gives the segment: escaping loses nothing,
/// so distinct segments never share a pointer.
pub proof fn escaped_segments_read_back(s: Seq<char>)
    ensures
        unescape_segment(escape_segment(s)) == s,
    decreases s.len(),
{
    if s.len() > 0 {
        let c = s.last();
        let e = escape_segment(s.drop_last());
        escaped_segments_read_back(s.drop_last());
        escaped_segment_ends_without_tilde(s.drop_last());
        let t = escape_segment(s);
        if c == '~' {
            assert(t == e + seq!['~', '0']);
            assert(t.take(t.len() - 2) =~= e);
        } else if c == '/' {
            assert(t == e + seq!['~', '1']);
            assert(t.take(t.len() - 2) =~= e);
        } else {
            assert(t == e + seq![c]);
            assert(t.drop_last() =~= e);
            if t.len() >= 2 {
                assert(t[t.len() - 2] == e.last());
            }
        }
        assert(s.drop_last().push(c) =~= s);
    }
}


/// The number of `~` and `/` in a segment.
pub open spec fn special_count(s: Seq<char>) -> nat
    decreases s.len(),
{
    if s.len() == 0 {
        0
    } else {
        special_count(s.drop_last()) + if s.last() == '~' || s.last() == '/' { 1nat } else { 0nat }
    }
}

/// Escaping lengthens a segment by one character per `~` and `/` in it.
pub proof fn escaped_segment_length(s: Seq<char>)
    ensures
        escape_segment(s).len() == s.len() + special_count(s),
    decreases s.len(),
{
    if s.len() > 0 {
        escaped_segment_length(s.drop_last());
    }
}

/// Every occurrence, from left to right, of the two characters `a` `b`
/// replaced by `c`.
pub open spec fn replace_pair(t: Seq<char>, a: char, b: char, c: char) -> Seq<char>
    decreases t.len(),
{
    if t.len() == 0 {
        seq![]
    } else if t.len() >= 2 && t[0] == a && t[1] == b {
        seq![c] + replace_pair(t.skip(2), a, b, c)
    } else {
        seq![t[0]] + replace_pair(t.skip(1), a, b, c)
    }
}

/// RFC 6901 decoding of a reference token: `~1` becomes `/`, then `~0` becomes `~`.
pub open spec fn rfc_unescape(t: Seq<char>) -> Seq<char> {
    replace_pair(replace_pair(t, '~', '1', '/'), '~', '0', '~')
}

/// Replacing in a concatenation replaces in each part, when the first part
/// does not end with the pattern's first character.
proof fn replace_pair_concat(x: Seq<char>, y: Seq<char>, a: char, b: char, c: char)
    requires
        x.len() == 0 || x.last() != a,
    ensures
        replace_pair(x + y, a, b, c) == replace_pair(x, a, b, c) + replace_pair(y, a, b, c),
    decreases x.len(),
{
    if x.len() == 0 {
        assert(x + y =~= y);
    } else if x.len() >= 2 && x[0] == a && x[1] == b {
        assert((x + y).skip(2) =~= x.skip(2) + y);
        replace_pair_concat(x.skip(2), y, a, b, c);
        assert(seq![c] + (replace_pair(x.skip(2), a, b, c) + replace_pair(y, a, b, c))
            =~= (seq![c] + replace_pair(x.skip(2), a, b, c)) + replace_pair(y, a, b, c));
    } else {
        assert((x + y).skip(1) =~= x.skip(1) + y);
        if x.len() == 1 {
            assert(x[0] != a);
        }
        replace_pair_concat(x.skip(1), y, a, b, c);
        assert(seq![x[0]] + (replace_pair(x.skip(1), a, b, c) + replace_pair(y, a, b, c))
            =~= (seq![x[0]] + replace_pair(x.skip(1), a, b, c)) + replace_pair(y, a, b, c));
    }
}

/// A segment with only `~` escaped.
pub open spec fn escape_tildes(s: Seq<char>) -> Seq<char>
    decreases s.len(),
{
    if s.len() == 0 {
        seq![]
    } else {
        escape_tildes(s.drop_last()) + if s.last() == '~' { seq!['~', '0'] } else { seq![s.last()] }
    }
}

proof fn escape_tildes_ends_without_tilde(s: Seq<char>)
    ensures
        escape_tildes(s).len() > 0 ==> escape_tildes(s).last() != '~',
    decreases s.len(),
{
    if s.len() > 0 {
        escape_tildes_ends_without_tilde(s.drop_last());
    }
}

proof fn first_replacement(s: Seq<char>)
    ensures
        replace_pair(escape_segment(s), '~', '1', '/') == escape_tildes(s),
    decreases s.len(),
{
    if s.len() > 0 {
        let c = s.last();
        first_replacement(s.drop_last());
        escaped_segment_ends_without_tilde(s.drop_last());
        let e = escape_segment(s.drop_last());
        let tail = if c == '~' { seq!['~', '0'] } else if c == '/' { seq!['~', '1'] } else { seq![c] };
        replace_pair_concat(e, tail, '~', '1', '/');
        if c == '~' {
            assert(tail.skip(1) =~= seq!['0']);
            assert(seq!['0'].skip(1) =~= Seq::<char>::empty());
            assert(replace_pair(tail, '~', '1', '/') =~= seq!['~', '0']) by {
                reveal_with_fuel(replace_pair, 3);
            }
        } else if c == '/' {
            assert(tail.skip(2) =~= Seq::<char>::empty());
            assert(replace_pair(tail, '~', '1', '/') =~= seq!['/']) by {
                reveal_with_fuel(replace_pair, 3);
            }
        } else {
            assert(tail.skip(1) =~= Seq::<char>::empty());
            assert(replace_pair(tail, '~', '1', '/') =~= seq![c]) by {
                reveal_with_fuel(replace_pair, 3);
            }
        }
    }
}

proof fn second_replacement(s: Seq<char>)
    ensures
        replace_pair(escape_tildes(s), '~', '0', '~') == s,
    decreases s.len(),
{
    if s.len() > 0 {
        let c = s.last();
        second_replacement(s.drop_last());
        escape_tildes_ends_without_tilde(s.drop_last());
        let e = escape_tildes(s.drop_last());
        let tail = if c == '~' { seq!['~', '0'] } else { seq![c] };
        replace_pair_concat(e, tail, '~', '0', '~');
        if c == '~' {
            assert(tail.skip(2) =~= Seq::<char>::empty());
            assert(replace_pair(tail, '~', '0', '~') =~= seq!['~']) by {
                reveal_with_fuel(replace_pair, 3);
            }
        } else {
            assert(tail.skip(1) =~= Seq::<char>::empty());
            assert(replace_pair(tail, '~', '0', '~') =~= seq![c]) by {
                reveal_with_fuel(replace_pair, 3);
            }
        }
        assert(s.drop_last() + seq![c] =~= s);
    }
}

/// RFC 6901 decoding gives an escaped segment back.
pub proof fn escaped_segments_decode_back(s: Seq<char>)
    ensures
        rfc_unescape(escape_segment(s)) == s,
{
    first_replacement(s);
    second_replacement(s);
}

} // verus!
