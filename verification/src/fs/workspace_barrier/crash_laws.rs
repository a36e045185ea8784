//! Which paths are the same, which run is believed at a crash point, and what is reported
//! there.

use super::digests::is_canonical_v4;
use super::fault::begins_here;
use super::fault::check_fault_run;
use super::fault::claim_field;
use super::fault::component_end;
use super::fault::components;
use super::fault::fault_handshake;
use super::fault::fault_run_root;
use super::fault::field_of;
use super::fault::first_line;
use super::fault::is_rooted;
use super::fault::line_end;
use super::fault::paths_agree;
use super::fault::CrashReport;
use super::fault::FaultRun;
use crate::outside::sha256;
use crate::text::decimal;
use crate::text::hex;
use crate::wire::begins_with;
use vstd::prelude::*;
use vstd::utf8::encode_utf8;
use vstd::utf8::encode_utf8_decode_utf8;
use vstd::utf8::valid_utf8;

verus! {

/// Parts with one byte between each and the next.
pub open spec fn joined(parts: Seq<Seq<u8>>, between: u8) -> Seq<u8>
    decreases parts.len(),
{
    if parts.len() == 0 {
        Seq::empty()
    } else if parts.len() == 1 {
        parts[0]
    } else {
        parts[0] + (seq![between] + joined(parts.drop_first(), between))
    }
}

/// No part holds the byte.
pub open spec fn none_holds(parts: Seq<Seq<u8>>, byte: u8) -> bool {
    forall|i: int, k: int|
        0 <= i < parts.len() && 0 <= k < parts[i].len() ==> #[trigger] parts[i][k] != byte
}

/// The parts that are neither empty nor a single dot, in order.
pub open spec fn kept(parts: Seq<Seq<u8>>) -> Seq<Seq<u8>>
    decreases parts.len(),
{
    if parts.len() == 0 {
        Seq::empty()
    } else if parts[0].len() == 0 || parts[0] == seq![0x2Eu8] {
        kept(parts.drop_first())
    } else {
        seq![parts[0]] + kept(parts.drop_first())
    }
}

proof fn lemma_first_ends(path: Seq<u8>, first: Seq<u8>, rest: Seq<u8>)
    requires
        forall|k: int| 0 <= k < first.len() ==> #[trigger] first[k] != 0x2F,
        path == first || path == first + (seq![0x2Fu8] + rest),
    ensures
        component_end(path) == first.len(),
    decreases first.len(),
{
    if first.len() > 0 {
        assert(path[0] == first[0]);
        assert(first.drop_first() + (seq![0x2Fu8] + rest) =~= (first + (seq![0x2Fu8]
            + rest)).drop_first());
        assert forall|k: int| 0 <= k < first.drop_first().len() implies #[trigger] first.drop_first()[k]
            != 0x2F by {
            assert(first.drop_first()[k] == first[k + 1]);
        }
        lemma_first_ends(path.drop_first(), first.drop_first(), rest);
    } else if path.len() > 0 {
        assert(path[0] == 0x2F);
    }
}

proof fn lemma_components_are_kept_parts(parts: Seq<Seq<u8>>)
    requires
        parts.len() > 0,
        none_holds(parts, 0x2F),
    ensures
        components(joined(parts, 0x2F)) == kept(parts),
        is_rooted(joined(parts, 0x2F)) <==> parts.len() > 1 && parts[0].len() == 0,
        begins_here(joined(parts, 0x2F)) <==> parts[0] == seq![0x2Eu8],
    decreases parts.len(),
{
    let path = joined(parts, 0x2F);
    let first = parts[0];
    let others = parts.drop_first();
    let rest = joined(others, 0x2F);
    assert forall|k: int| 0 <= k < first.len() implies #[trigger] first[k] != 0x2F by {
        assert(parts[0][k] != 0x2F);
    }
    assert(none_holds(others, 0x2F)) by {
        assert forall|i: int, k: int|
            0 <= i < others.len() && 0 <= k < others[i].len() implies #[trigger] others[i][k]
            != 0x2F by {
            assert(others[i] == parts[i + 1]);
            assert(parts[i + 1][k] != 0x2F);
        }
    }
    lemma_first_ends(path, first, rest);
    assert(path.take(first.len() as int) =~= first);
    if parts.len() == 1 {
        assert(others =~= Seq::empty());
        assert(kept(others) =~= Seq::empty());
        if first.len() > 0 {
            assert(path[0] == first[0]);
            assert(parts[0][0] != 0x2F);
            assert(seq![first] + Seq::<Seq<u8>>::empty() =~= seq![first] + kept(others));
        }
    } else {
        lemma_components_are_kept_parts(others);
        assert(path.skip((first.len() + 1) as int) =~= rest);
        assert(path[first.len() as int] == 0x2F);
        if first.len() > 0 {
            assert(path[0] == first[0]);
            assert(parts[0][0] != 0x2F);
        }
    }
}

/// Two paths are the same exactly if both or neither begin at the root, both or neither begin
/// with the current directory by name, and the names between their separators are the same
/// in order, where empty ones and single dots do not count.
pub proof fn law_paths_agree_by_their_names(
    a: &str,
    b: &str,
    names_a: Seq<Seq<u8>>,
    names_b: Seq<Seq<u8>>,
    same: bool,
)
    requires
        names_a.len() > 0,
        names_b.len() > 0,
        none_holds(names_a, 0x2F),
        none_holds(names_b, 0x2F),
        encode_utf8(a@) == joined(names_a, 0x2F),
        encode_utf8(b@) == joined(names_b, 0x2F),
        call_ensures(paths_agree, (a, b), same),
    ensures
        same <==> {
            &&& (names_a.len() > 1 && names_a[0].len() == 0) == (names_b.len() > 1
                && names_b[0].len() == 0)
            &&& (names_a[0] == seq![0x2Eu8]) == (names_b[0] == seq![0x2Eu8])
            &&& kept(names_a) == kept(names_b)
        },
{
    lemma_components_are_kept_parts(names_a);
    lemma_components_are_kept_parts(names_b);
}

/// A path is the same as itself, and two paths that are the same as a third are the same.
pub proof fn law_being_the_same_path_is_an_equivalence(
    a: &str,
    b: &str,
    c: &str,
    aa: bool,
    ab: bool,
    ba: bool,
    bc: bool,
    ac: bool,
)
    requires
        call_ensures(paths_agree, (a, a), aa),
        call_ensures(paths_agree, (a, b), ab),
        call_ensures(paths_agree, (b, a), ba),
        call_ensures(paths_agree, (b, c), bc),
        call_ensures(paths_agree, (a, c), ac),
    ensures
        aa,
        ab == ba,
        ab && bc ==> ac,
{
}

/// The directory of a run bears its identity.
pub proof fn law_run_root_bears_the_identity(run_id: &str, root: String)
    requires
        call_ensures(fault_run_root, (run_id,), root),
    ensures
        root@ == "/opt/rhizome/validation/zerofs-barrier-fault/runs/"@ + run_id@,
{
}

/// A run is believed exactly if its identity is canonical, its scenario is the crash point,
/// its configured directory is that of its identity and leads through no link, the directory
/// is root's own and closed to everybody else, and the digest of its preflight is one.
pub proof fn law_run_is_believed_if_all_of_it_holds(
    run: &FaultRun<'_>,
    point: &str,
    named: bool,
    root: String,
    root_text: &str,
    placed: bool,
    linkless: bool,
    valid: bool,
)
    requires
        call_ensures(is_canonical_v4, (run.run_id,), named),
        call_ensures(fault_run_root, (run.run_id,), root),
        root_text@ == root@,
        call_ensures(paths_agree, (run.configured_root, root_text), placed),
        call_ensures(paths_agree, (run.canonical_root, run.configured_root), linkless),
        call_ensures(check_fault_run, (run, point), valid),
    ensures
        ({
            let digest = encode_utf8(run.preflight_receipt_sha256@);
            valid <==> {
                &&& named
                &&& run.scenario@ == point@
                &&& placed
                &&& linkless
                &&& run.root.is_dir
                &&& run.root.uid == 0
                &&& run.root.gid == 0
                &&& run.root.mode as int % 0x1000 == 0x1C0
                &&& digest.len() == 64
                &&& forall|i: int|
                    0 <= i < 64 ==> (0x30 <= #[trigger] digest[i] <= 0x39 || 0x61 <= digest[i]
                        <= 0x66)
            }
        }),
{
    let digest = encode_utf8(run.preflight_receipt_sha256@);
    if valid {
        assert forall|i: int| 0 <= i < 64 implies (0x30 <= #[trigger] digest[i] <= 0x39 || 0x61
            <= digest[i] <= 0x66) by {
            assert(super::fault::lower_hex(digest[i]));
        }
    }
}

/// A line, without the carriage return that stands before its end, if it has an end.
pub open spec fn bare(lines: Seq<Seq<u8>>, i: int) -> Seq<u8> {
    if i < lines.len() - 1 && lines[i].len() > 0 && lines[i].last() == 0x0D {
        lines[i].drop_last()
    } else {
        lines[i]
    }
}

/// There is such a line: what stands behind the last line end is one only if it is not empty.
pub open spec fn is_line(lines: Seq<Seq<u8>>, i: int) -> bool {
    0 <= i < lines.len() && (i == lines.len() - 1 ==> lines[i].len() > 0)
}

/// The line is the first that begins with `prefix`.
pub open spec fn is_first_with(lines: Seq<Seq<u8>>, i: int, prefix: Seq<u8>) -> bool {
    &&& is_line(lines, i)
    &&& begins_with(bare(lines, i), prefix)
    &&& forall|k: int| 0 <= k < i ==> !begins_with(#[trigger] bare(lines, k), prefix)
}

proof fn lemma_line_ends(text: Seq<u8>, first: Seq<u8>, rest: Seq<u8>)
    requires
        forall|k: int| 0 <= k < first.len() ==> #[trigger] first[k] != 0x0A,
        text == first || text == first + (seq![0x0Au8] + rest),
    ensures
        line_end(text) == first.len(),
    decreases first.len(),
{
    if first.len() > 0 {
        assert(text[0] == first[0]);
        assert(first.drop_first() + (seq![0x0Au8] + rest) =~= (first + (seq![0x0Au8]
            + rest)).drop_first());
        assert forall|k: int| 0 <= k < first.drop_first().len() implies #[trigger] first.drop_first()[k]
            != 0x0A by {
            assert(first.drop_first()[k] == first[k + 1]);
        }
        lemma_line_ends(text.drop_first(), first.drop_first(), rest);
    } else if text.len() > 0 {
        assert(text[0] == 0x0A);
    }
}

proof fn lemma_field(lines: Seq<Seq<u8>>, prefix: Seq<u8>)
    requires
        lines.len() > 0,
        none_holds(lines, 0x0A),
    ensures
        match field_of(joined(lines, 0x0A), prefix) {
            Some(value) => exists|i: int|
                #[trigger] is_first_with(lines, i, prefix) && value == bare(lines, i).skip(
                    prefix.len() as int,
                ),
            None => forall|i: int|
                is_line(lines, i) ==> !begins_with(#[trigger] bare(lines, i), prefix),
        },
    decreases lines.len(),
{
    let text = joined(lines, 0x0A);
    let first = lines[0];
    let others = lines.drop_first();
    let rest = joined(others, 0x0A);
    assert forall|k: int| 0 <= k < first.len() implies #[trigger] first[k] != 0x0A by {
        assert(lines[0][k] != 0x0A);
    }
    lemma_line_ends(text, first, rest);
    assert(text.take(first.len() as int) =~= first);
    if lines.len() > 1 {
        if first.len() > 0 {
            assert(text[first.len() - 1] == first.last());
            assert(text.take(first.len() - 1) =~= first.drop_last());
        }
        assert(first_line(text) == bare(lines, 0));
        assert(text.skip((first.len() + 1) as int) =~= rest);
        assert(none_holds(others, 0x0A)) by {
            assert forall|i: int, k: int|
                0 <= i < others.len() && 0 <= k < others[i].len() implies #[trigger] others[i][k]
                != 0x0A by {
                assert(others[i] == lines[i + 1]);
                assert(lines[i + 1][k] != 0x0A);
            }
        }
        lemma_field(others, prefix);
        assert forall|i: int| 0 <= i < others.len() implies #[trigger] bare(others, i) == bare(
            lines,
            i + 1,
        ) by {}
        if begins_with(bare(lines, 0), prefix) {
            assert(is_first_with(lines, 0, prefix));
        } else {
            match field_of(rest, prefix) {
                Some(value) => {
                    let i = choose|i: int|
                        #[trigger] is_first_with(others, i, prefix) && value == bare(
                            others,
                            i,
                        ).skip(prefix.len() as int);
                    assert(bare(others, i) == bare(lines, i + 1));
                    assert forall|k: int| 0 <= k < i + 1 implies !begins_with(
                        #[trigger] bare(lines, k),
                        prefix,
                    ) by {
                        if k > 0 {
                            assert(bare(others, k - 1) == bare(lines, k));
                        }
                    }
                    assert(is_first_with(lines, i + 1, prefix));
                },
                None => {
                    assert forall|i: int| is_line(lines, i) implies !begins_with(
                        #[trigger] bare(lines, i),
                        prefix,
                    ) by {
                        if i > 0 {
                            assert(bare(others, i - 1) == bare(lines, i));
                            assert(is_line(others, i - 1));
                        }
                    }
                },
            }
        }
    } else {
        assert(first_line(text) == bare(lines, 0));
        if first.len() > 0 && begins_with(first, prefix) {
            assert(is_first_with(lines, 0, prefix));
        }
    }
}

/// A field of a record is what the first line with its name goes on with; there is none if no
/// line has the name.
pub proof fn law_field_is_of_the_first_line_with_its_name(
    claim: &[u8],
    prefix: &[u8],
    lines: Seq<Seq<u8>>,
    value: Option<&[u8]>,
)
    requires
        lines.len() > 0,
        none_holds(lines, 0x0A),
        claim@ == joined(lines, 0x0A),
        call_ensures(claim_field, (claim, prefix), value),
    ensures
        match value {
            Some(v) => exists|i: int|
                #[trigger] is_first_with(lines, i, prefix@) && v@ == bare(lines, i).skip(
                    prefix@.len() as int,
                ),
            None => forall|i: int|
                is_line(lines, i) ==> !begins_with(#[trigger] bare(lines, i), prefix@),
        },
{
    lemma_field(lines, prefix@);
}

/// A name and a value on a line.
pub open spec fn line_of(name: Seq<char>, value: Seq<char>) -> Seq<char> {
    name + value + "\n"@
}

/// A report says who reports and where, which barrier it was about as the claim's record says,
/// which record that was, how far the barrier went and which receipt it gave, if any. It is
/// owed exactly for a record that is text and names both the barrier and its claim.
pub proof fn law_report_says_who_where_and_which(
    report: &CrashReport<'_>,
    claim: &[u8],
    barrier_name: &[u8],
    claim_name: &[u8],
    barrier: Option<&[u8]>,
    effect: Option<&[u8]>,
    barrier_text: Seq<char>,
    effect_text: Seq<char>,
    text: Option<String>,
)
    requires
        barrier_name@ == encode_utf8("barrier_id="@),
        claim_name@ == encode_utf8("effect_claim_digest="@),
        call_ensures(claim_field, (claim, barrier_name), barrier),
        call_ensures(claim_field, (claim, claim_name), effect),
        barrier matches Some(bytes) ==> valid_utf8(bytes@) ==> encode_utf8(barrier_text) == bytes@,
        effect matches Some(bytes) ==> valid_utf8(bytes@) ==> encode_utf8(effect_text) == bytes@,
        call_ensures(fault_handshake, (report, claim), text),
    ensures
        text is Some <==> valid_utf8(claim@) && barrier is Some && effect is Some,
        text is Some && valid_utf8(barrier->0@) && valid_utf8(effect->0@) ==> text->0@ == (
        "schema=1\n"@ + line_of("run_id="@, report.run_id@) + line_of(
            "scenario="@,
            report.scenario@,
        ) + line_of("point="@, report.point@) + line_of("pid="@, decimal(report.pid as nat))
            + line_of("preflight_receipt_sha256="@, report.preflight_receipt_sha256@)) + (line_of(
            "request_digest="@,
            hex(report.request_digest@),
        ) + line_of("barrier_id="@, barrier_text) + line_of("effect_claim_digest="@, effect_text)
            + line_of("claim_record_digest="@, hex(sha256(claim@)@)) + line_of(
            "included_write_sequence="@,
            decimal(report.included_write_sequence as nat),
        ) + line_of(
            "receipt_digest="@,
            match report.receipt_digest {
                Some(digest) => hex(digest@),
                None => "none"@,
            },
        )),
{
    encode_utf8_decode_utf8(barrier_text);
    encode_utf8_decode_utf8(effect_text);
}

} // verus!
