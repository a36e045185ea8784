//! Crash points of fault-injection runs: which run is believed, and what a process
//! reports before it waits to be killed.

use super::digests::canonical_v4;
use super::digests::is_canonical_v4;
use crate::fs::export_authority::shard::permissions;
use crate::fs::export_authority::shard::FileFacts;
use crate::outside::sha256;
use crate::outside::sha256_digest;
use crate::outside::utf8_str;
use crate::text::decimal;
use crate::text::hex;
use crate::text::put_decimal;
use crate::text::put_hex;
use crate::wire::begins_with;
use crate::wire::same_bytes;
use crate::wire::same_str;
use crate::wire::starts_with;
use vstd::prelude::*;
use vstd::slice::slice_subrange;
use vstd::string::StringExecFns;
use vstd::utf8::decode_utf8;
use vstd::utf8::encode_utf8;
use vstd::utf8::encode_utf8_decode_utf8;
use vstd::utf8::encode_utf8_valid_utf8;
use vstd::utf8::is_char_boundary_iff_not_is_continuation_byte;
use vstd::utf8::is_continuation_byte;
use vstd::utf8::is_leading_byte_width_1;
use vstd::utf8::partial_valid_partial_invalid_utf8;
use vstd::utf8::pop_first_scalar;
use vstd::utf8::valid_utf8;
use vstd::utf8::valid_utf8_split;

verus! {

/// The directory of a fault-injection run.
pub open spec fn run_root(run_id: Seq<char>) -> Seq<char> {
    "/opt/rhizome/validation/zerofs-barrier-fault/runs/"@ + run_id
}

pub fn fault_run_root(run_id: &str) -> (root: String)
    ensures
        root@ == run_root(run_id@),
{
    let mut root = "/opt/rhizome/validation/zerofs-barrier-fault/runs/".to_owned();
    root.append(run_id);
    root
}

/// A lower-case hexadecimal digit.
pub open spec fn lower_hex(byte: u8) -> bool {
    0x30 <= byte <= 0x39 || 0x61 <= byte <= 0x66
}

/// A SHA-256 digest in lower-case hexadecimal digits.
pub open spec fn digest_text(text: Seq<u8>) -> bool {
    text.len() == 64 && forall|i: int| 0 <= i < 64 ==> lower_hex(#[trigger] text[i])
}

fn is_digest_text(text: &[u8]) -> (valid: bool)
    ensures
        valid == digest_text(text@),
{
    if text.len() != 64 {
        return false;
    }
    let mut i: usize = 0;
    while i < 64
        invariant
            i <= 64,
            text@.len() == 64,
            forall|k: int| 0 <= k < i ==> lower_hex(#[trigger] text@[k]),
        decreases 64 - i,
    {
        let byte: u8 = text[i];
        if !((0x30 <= byte && byte <= 0x39) || (0x61 <= byte && byte <= 0x66)) {
            assert(!lower_hex(text@[i as int]));
            return false;
        }
        i += 1;
    }
    true
}

/// Where the first component of a path ends.
pub open spec fn component_end(path: Seq<u8>) -> int
    decreases path.len(),
{
    if path.len() == 0 || path[0] == 0x2F {
        0
    } else {
        1 + component_end(path.drop_first())
    }
}

/// A part of a path that names nothing: an empty one, or `.`.
pub open spec fn names_nothing(part: Seq<u8>) -> bool {
    part.len() == 0 || part == seq![0x2Eu8]
}

/// The components of a path that name something, in order.
pub open spec fn components(path: Seq<u8>) -> Seq<Seq<u8>>
    decreases path.len(),
{
    let end = component_end(path);
    let rest = if 0 <= end < path.len() {
        components(path.skip(end + 1))
    } else {
        Seq::empty()
    };
    if path.len() == 0 {
        Seq::empty()
    } else if names_nothing(path.take(end)) {
        rest
    } else {
        seq![path.take(end)] + rest
    }
}

/// A path begins at the root.
pub open spec fn is_rooted(path: Seq<u8>) -> bool {
    path.len() > 0 && path[0] == 0x2F
}

/// A path begins with the current directory, and says so.
pub open spec fn begins_here(path: Seq<u8>) -> bool {
    path.len() > 0 && path.take(component_end(path)) == seq![0x2Eu8]
}

/// Two paths are the same: they begin at the same place and have the same components.
/// Repeated and trailing separators make no difference, nor does `.` but at the
/// beginning.
pub open spec fn same_path(a: Seq<u8>, b: Seq<u8>) -> bool {
    is_rooted(a) == is_rooted(b) && begins_here(a) == begins_here(b) && components(a)
        == components(b)
}

proof fn lemma_component_end(path: Seq<u8>)
    ensures
        0 <= component_end(path) <= path.len(),
        forall|i: int| 0 <= i < component_end(path) ==> path[i] != 0x2F,
        component_end(path) < path.len() ==> path[component_end(path)] == 0x2F,
    decreases path.len(),
{
    if path.len() > 0 && path[0] != 0x2F {
        lemma_component_end(path.drop_first());
        assert forall|i: int| 0 <= i < component_end(path) implies path[i] != 0x2F by {
            if i > 0 {
                assert(path[i] == path.drop_first()[i - 1]);
            }
        }
    }
}

fn find_component_end(path: &[u8]) -> (end: usize)
    ensures
        end == component_end(path@),
        end <= path@.len(),
{
    proof {
        lemma_component_end(path@);
    }
    let mut i: usize = 0;
    while i < path.len()
        invariant
            i <= component_end(path@) <= path@.len(),
            component_end(path@) < path@.len() ==> path@[component_end(path@)] == 0x2F,
            forall|k: int| 0 <= k < component_end(path@) ==> path@[k] != 0x2F,
        ensures
            i == component_end(path@),
        decreases path@.len() - i,
    {
        if path[i] == 0x2F {
            break;
        }
        i += 1;
    }
    i
}

fn is_here(part: &[u8]) -> (here: bool)
    ensures
        here == (part@ == seq![0x2Eu8]),
{
    let here = part.len() == 1 && part[0] == 0x2E;
    proof {
        if here {
            assert(part@ =~= seq![0x2Eu8]);
        }
    }
    here
}

/// The first component of a path that names something, and what comes behind it.
fn first_component(path: &[u8]) -> (first: Option<(&[u8], &[u8])>)
    ensures
        match first {
            Some((part, rest)) => components(path@) == seq![part@] + components(rest@)
                && rest@.len() < path@.len(),
            None => components(path@) == Seq::<Seq<u8>>::empty(),
        },
    decreases path@.len(),
{
    if path.len() == 0 {
        return None;
    }
    let end: usize = find_component_end(path);
    let part = slice_subrange(path, 0, end);
    let next: usize = if end < path.len() {
        end + 1
    } else {
        end
    };
    let rest = slice_subrange(path, next, path.len());
    proof {
        lemma_component_end(path@);
        assert(part@ =~= path@.take(end as int));
        if end < path@.len() {
            assert(rest@ =~= path@.skip(end + 1));
        }
    }
    if part.len() == 0 || is_here(part) {
        if end >= path.len() {
            return None;
        }
        return first_component(rest);
    }
    Some((part, rest))
}

fn same_components(a: &[u8], b: &[u8]) -> (same: bool)
    ensures
        same == (components(a@) == components(b@)),
    decreases a@.len(),
{
    match (first_component(a), first_component(b)) {
        (Some((x, after_x)), Some((y, after_y))) => {
            let same = same_bytes(x, y) && same_components(after_x, after_y);
            proof {
                let s = seq![x@] + components(after_x@);
                let t = seq![y@] + components(after_y@);
                if s == t {
                    assert(s[0] == x@ && t[0] == y@);
                    assert(s.skip(1) =~= components(after_x@));
                    assert(t.skip(1) =~= components(after_y@));
                }
            }
            same
        },
        (None, None) => true,
        (Some((x, after_x)), None) => {
            assert((seq![x@] + components(after_x@)).len() > 0);
            false
        },
        (None, Some((y, after_y))) => {
            assert((seq![y@] + components(after_y@)).len() > 0);
            false
        },
    }
}

fn rooted(path: &[u8]) -> (rooted: bool)
    ensures
        rooted == is_rooted(path@),
{
    path.len() > 0 && path[0] == 0x2F
}

fn here_first(path: &[u8]) -> (here: bool)
    ensures
        here == begins_here(path@),
{
    if path.len() == 0 {
        return false;
    }
    let part = slice_subrange(path, 0, find_component_end(path));
    assert(part@ =~= path@.take(component_end(path@)));
    is_here(part)
}

/// Whether two paths are the same.
pub fn paths_agree(a: &str, b: &str) -> (same: bool)
    ensures
        same == same_path(encode_utf8(a@), encode_utf8(b@)),
{
    let x = a.as_bytes();
    let y = b.as_bytes();
    rooted(x) == rooted(y) && here_first(x) == here_first(y) && same_components(x, y)
}

/// What a process was told of the run that it belongs to, and found of it.
pub struct FaultRun<'a> {
    pub run_id: &'a str,
    pub scenario: &'a str,
    pub configured_root: &'a str,
    /// The configured root without links.
    pub canonical_root: &'a str,
    pub root: FileFacts,
    pub preflight_receipt_sha256: &'a str,
}

/// A run that is what it says: its identity is canonical, its scenario is the crash
/// point, its directory is root's own and nobody else's, and its preflight has a digest.
pub open spec fn believed(run: FaultRun<'_>, point: Seq<char>) -> bool {
    &&& canonical_v4(run.run_id@)
    &&& run.scenario@ == point
    &&& same_path(encode_utf8(run.configured_root@), encode_utf8(run_root(run.run_id@)))
    &&& same_path(encode_utf8(run.canonical_root@), encode_utf8(run.configured_root@))
    &&& run.root.is_dir
    &&& run.root.uid == 0
    &&& run.root.gid == 0
    &&& permissions(run.root.mode) == 0o700
    &&& digest_text(encode_utf8(run.preflight_receipt_sha256@))
}

/// Whether a run is to be believed at a crash point.
pub fn check_fault_run(run: &FaultRun<'_>, point: &str) -> (valid: bool)
    ensures
        valid == believed(*run, point@),
{
    let expected_root = fault_run_root(run.run_id);
    is_canonical_v4(run.run_id) && same_str(run.scenario, point) && paths_agree(
        run.configured_root,
        &expected_root,
    ) && paths_agree(run.canonical_root, run.configured_root) && run.root.is_dir && run.root.uid == 0
        && run.root.gid == 0 && run.root.mode % 0o10000 == 0o700 && is_digest_text(
        run.preflight_receipt_sha256.as_bytes(),
    )
}

/// Where the first line of `text` ends.
pub open spec fn line_end(text: Seq<u8>) -> int
    decreases text.len(),
{
    if text.len() == 0 || text[0] == 0x0A {
        0
    } else {
        1 + line_end(text.drop_first())
    }
}

/// The first line of `text`, without its line ending.
pub open spec fn first_line(text: Seq<u8>) -> Seq<u8> {
    let end = line_end(text);
    if 0 < end < text.len() && text[end - 1] == 0x0D {
        text.take(end - 1)
    } else {
        text.take(end)
    }
}

/// What the first line that begins with `prefix` goes on with.
pub open spec fn field_of(text: Seq<u8>, prefix: Seq<u8>) -> Option<Seq<u8>>
    decreases text.len(),
{
    let end = line_end(text);
    if text.len() == 0 {
        None
    } else if begins_with(first_line(text), prefix) {
        Some(first_line(text).skip(prefix.len() as int))
    } else if 0 <= end < text.len() {
        field_of(text.skip(end + 1), prefix)
    } else {
        None
    }
}

proof fn lemma_line_end(text: Seq<u8>)
    ensures
        0 <= line_end(text) <= text.len(),
        forall|i: int| 0 <= i < line_end(text) ==> text[i] != 0x0A,
        line_end(text) < text.len() ==> text[line_end(text)] == 0x0A,
    decreases text.len(),
{
    if text.len() > 0 && text[0] != 0x0A {
        lemma_line_end(text.drop_first());
        assert forall|i: int| 0 <= i < line_end(text) implies text[i] != 0x0A by {
            if i > 0 {
                assert(text[i] == text.drop_first()[i - 1]);
            }
        }
    }
}

fn find_line_end(text: &[u8]) -> (end: usize)
    ensures
        end == line_end(text@),
        end <= text@.len(),
{
    proof {
        lemma_line_end(text@);
    }
    let mut i: usize = 0;
    while i < text.len()
        invariant
            i <= line_end(text@) <= text@.len(),
            line_end(text@) < text@.len() ==> text@[line_end(text@)] == 0x0A,
            forall|k: int| 0 <= k < line_end(text@) ==> text@[k] != 0x0A,
        ensures
            i == line_end(text@),
        decreases text@.len() - i,
    {
        if text[i] == 0x0A {
            break;
        }
        i += 1;
    }
    i
}

/// The value of a field of a claim record, which has one `name=value` on each line. The
/// first line with the name counts.
pub fn claim_field<'a>(claim: &'a [u8], prefix: &[u8]) -> (value: Option<&'a [u8]>)
    ensures
        match field_of(claim@, prefix@) {
            Some(expected) => value matches Some(v) && v@ == expected,
            None => value is None,
        },
    decreases claim@.len(),
{
    if claim.len() == 0 {
        return None;
    }
    let end: usize = find_line_end(claim);
    let line_len: usize = if end > 0 && end < claim.len() && claim[end - 1] == 0x0D {
        end - 1
    } else {
        end
    };
    let line = slice_subrange(claim, 0, line_len);
    assert(line@ =~= first_line(claim@));
    if starts_with(line, prefix) {
        let value = slice_subrange(line, prefix.len(), line.len());
        assert(value@ =~= first_line(claim@).skip(prefix@.len() as int));
        return Some(value);
    }
    if end >= claim.len() {
        return None;
    }
    let rest = slice_subrange(claim, end + 1, claim.len());
    assert(rest@ =~= claim@.skip(end + 1));
    claim_field(rest, prefix)
}

/// The text of the first line of a record that begins with `name`, after the name.
pub open spec fn field_text(claim: Seq<u8>, name: Seq<char>) -> Seq<char> {
    decode_utf8(field_of(claim, encode_utf8(name))->0)
}

/// Text that is cut before an ASCII byte, or behind it, is still text.
proof fn lemma_cut_at_ascii(text: Seq<u8>, at: int)
    requires
        valid_utf8(text),
        0 <= at < text.len(),
        text[at] < 0x80,
    ensures
        valid_utf8(text.take(at)),
        valid_utf8(text.skip(at + 1)),
{
    assert(!is_continuation_byte(text[at]));
    is_char_boundary_iff_not_is_continuation_byte(text, at);
    valid_utf8_split(text, at);
    assert(text.take(at) =~= text.subrange(0, at));
    let rest = text.subrange(at, text.len() as int);
    assert(is_leading_byte_width_1(rest[0]));
    assert(pop_first_scalar(rest) =~= text.skip(at + 1));
}

/// The first line of a text, and what comes behind it, are text.
proof fn lemma_lines_are_text(text: Seq<u8>)
    requires
        valid_utf8(text),
    ensures
        valid_utf8(first_line(text)),
        line_end(text) < text.len() ==> valid_utf8(text.skip(line_end(text) + 1)),
{
    let end = line_end(text);
    lemma_line_end(text);
    if end < text.len() {
        lemma_cut_at_ascii(text, end);
        if 0 < end && text[end - 1] == 0x0D {
            lemma_cut_at_ascii(text, end - 1);
        }
    } else {
        assert(text.take(end) =~= text);
    }
}

/// A field of a text is text.
proof fn lemma_field_is_text(text: Seq<u8>, prefix: Seq<u8>)
    requires
        valid_utf8(text),
        valid_utf8(prefix),
    ensures
        field_of(text, prefix) matches Some(value) ==> valid_utf8(value),
    decreases text.len(),
{
    let end = line_end(text);
    let line = first_line(text);
    lemma_line_end(text);
    lemma_lines_are_text(text);
    if text.len() == 0 {
    } else if begins_with(line, prefix) {
        let n = prefix.len() as int;
        assert(line.subrange(0, n) =~= prefix);
        assert(line.subrange(n, line.len() as int) =~= line.skip(n));
        if !valid_utf8(line.skip(n)) {
            partial_valid_partial_invalid_utf8(line, n);
        }
    } else if end < text.len() {
        lemma_field_is_text(text.skip(end + 1), prefix);
    }
}

fn claim_text<'a>(claim: &'a [u8], name: &str) -> (value: Option<&'a str>)
    requires
        valid_utf8(claim@),
    ensures
        match field_of(claim@, encode_utf8(name@)) {
            Some(_) => value matches Some(v) && v@ == field_text(claim@, name@),
            None => value is None,
        },
{
    let value = claim_field(claim, name.as_bytes())?;
    proof {
        encode_utf8_valid_utf8(name@);
        lemma_field_is_text(claim@, encode_utf8(name@));
    }
    let text = utf8_str(value)?;
    proof {
        encode_utf8_decode_utf8(text@);
    }
    Some(text)
}

/// What a process reports when it has reached its crash point.
pub struct CrashReport<'a> {
    pub run_id: &'a str,
    pub scenario: &'a str,
    pub point: &'a str,
    pub pid: u32,
    pub preflight_receipt_sha256: &'a str,
    pub request_digest: [u8; 32],
    pub included_write_sequence: u64,
    pub receipt_digest: Option<[u8; 32]>,
}

/// A line of a report.
pub open spec fn report_line(name: Seq<char>, value: Seq<char>) -> Seq<char> {
    name + value + "\n"@
}

/// Who reports, and where it stands.
pub open spec fn report_head(report: CrashReport<'_>) -> Seq<char> {
    "schema=1\n"@ + report_line("run_id="@, report.run_id@) + report_line(
        "scenario="@,
        report.scenario@,
    ) + report_line("point="@, report.point@) + report_line("pid="@, decimal(report.pid as nat))
        + report_line("preflight_receipt_sha256="@, report.preflight_receipt_sha256@)
}

/// Which barrier it was about, as the claim record says, and which record that was.
pub open spec fn report_body(report: CrashReport<'_>, claim: Seq<u8>) -> Seq<char> {
    report_line("request_digest="@, hex(report.request_digest@)) + report_line(
        "barrier_id="@,
        field_text(claim, "barrier_id="@),
    ) + report_line(
        "effect_claim_digest="@,
        field_text(claim, "effect_claim_digest="@),
    ) + report_line(
        "claim_record_digest="@,
        hex(sha256(claim)@),
    ) + report_line(
        "included_write_sequence="@,
        decimal(report.included_write_sequence as nat),
    ) + report_line(
        "receipt_digest="@,
        match report.receipt_digest {
            Some(digest) => hex(digest@),
            None => "none"@,
        },
    )
}

fn put_line(out: &mut String, name: &str, value: &str)
    ensures
        final(out)@ == old(out)@ + report_line(name@, value@),
{
    out.append(name);
    out.append(value);
    out.append("\n");
    assert(out@ =~= old(out)@ + report_line(name@, value@));
}

fn hex_text(bytes: &[u8]) -> (text: String)
    ensures
        text@ == hex(bytes@),
{
    let mut text = "".to_owned();
    put_hex(&mut text, bytes);
    proof {
        reveal_strlit("");
    }
    assert(text@ =~= hex(bytes@));
    text
}

fn decimal_text(n: u64) -> (text: String)
    ensures
        text@ == decimal(n as nat),
{
    let mut text = "".to_owned();
    put_decimal(&mut text, n);
    proof {
        reveal_strlit("");
    }
    assert(text@ =~= decimal(n as nat));
    text
}

/// The report as it is written for the run to find. `claim` is the record of the claim
/// that the barrier was dispatched under: a text that names the barrier and the digest of
/// its claim. There is no report on a record that is none.
pub fn fault_handshake(report: &CrashReport<'_>, claim: &[u8]) -> (text: Option<String>)
    ensures
        if valid_utf8(claim@) && field_of(claim@, encode_utf8("barrier_id="@)) is Some && field_of(
            claim@,
            encode_utf8("effect_claim_digest="@),
        ) is Some {
            text matches Some(t) && t@ == report_head(*report) + report_body(*report, claim@)
        } else {
            text is None
        },
{
    utf8_str(claim)?;
    let barrier_id = claim_text(claim, "barrier_id=")?;
    let effect_claim_digest = claim_text(claim, "effect_claim_digest=")?;
    let mut head = "schema=1\n".to_owned();
    put_line(&mut head, "run_id=", report.run_id);
    put_line(&mut head, "scenario=", report.scenario);
    put_line(&mut head, "point=", report.point);
    put_line(&mut head, "pid=", &decimal_text(report.pid as u64));
    put_line(&mut head, "preflight_receipt_sha256=", report.preflight_receipt_sha256);
    assert(head@ == report_head(*report));
    let mut body = "".to_owned();
    proof {
        reveal_strlit("");
        assert(body@ =~= Seq::empty());
        assert(body@ + report_line("request_digest="@, hex(report.request_digest@))
            =~= report_line("request_digest="@, hex(report.request_digest@)));
    }
    put_line(&mut body, "request_digest=", &hex_text(&report.request_digest));
    put_line(&mut body, "barrier_id=", barrier_id);
    put_line(&mut body, "effect_claim_digest=", effect_claim_digest);
    put_line(&mut body, "claim_record_digest=", &hex_text(&sha256_digest(claim)));
    put_line(
        &mut body,
        "included_write_sequence=",
        &decimal_text(report.included_write_sequence),
    );
    let receipt_digest = match &report.receipt_digest {
        Some(digest) => hex_text(digest),
        None => "none".to_owned(),
    };
    put_line(&mut body, "receipt_digest=", &receipt_digest);
    assert(body@ == report_body(*report, claim@));
    head.append(&body);
    Some(head)
}

} // verus!
