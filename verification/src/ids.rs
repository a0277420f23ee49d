//! Stable ids for findings, and the findings that a project has accepted.
use vstd::prelude::*;
use vstd::arithmetic::div_mod::lemma_fundamental_div_mod;
use vstd::string::StringSliceAdditionalSpecFns;
use vstd::utf8::{encode_utf8, encode_utf8_decode_utf8};

use crate::api::{
    Failure, FailureModel, ReproCaseModel, VerificationReport, VerificationReportModel,
};
use crate::number::{hex_char, hex_digits, print_hex};
use crate::order::{
    ascending, insert, inserted, lemma_inserted_ascending, lemma_inserted_holds,
    lemma_inserted_items, ByText,
};
use crate::records::{BaselineSummary, BaselineSummaryModel};
use crate::seqs::{cat2, lemma_take_all, lemma_take_next};
use crate::text::{list_has, owned};

verus! {

// ---------------------------------------------------------------------------
// Hashing
// ---------------------------------------------------------------------------
/// The 64-bit FNV-1a hash of some bytes: each byte is mixed in by exclusive or
/// and the result multiplied by the FNV prime, modulo two to the 64.
pub open spec fn fnv_hash(bytes: Seq<u8>) -> u64
    decreases bytes.len(),
{
    if bytes.len() == 0 {
        0xcbf29ce484222325u64
    } else {
        (fnv_hash(bytes.drop_last()) ^ (bytes.last() as u64)).wrapping_mul(0x100000001b3u64)
    }
}

/// The 64-bit FNV-1a hash of some bytes.
pub fn fnv1a64(bytes: &Vec<u8>) -> (r: u64)
    ensures
        r == fnv_hash(bytes@),
{
    let mut hash: u64 = 0xcbf29ce484222325u64;
    let mut i: usize = 0;
    assert(bytes@.take(0).len() == 0);
    while i < bytes.len()
        invariant
            i <= bytes@.len(),
            hash == fnv_hash(bytes@.take(i as int)),
        decreases bytes@.len() - i,
    {
        proof {
            lemma_take_next(bytes@, i as int);
        }
        hash = (hash ^ (bytes[i] as u64)).wrapping_mul(0x100000001b3u64);
        i = i + 1;
    }
    proof {
        lemma_take_all(bytes@);
    }
    hash
}

/// A number is found again from its product with the prime: the prime is odd.
proof fn lemma_product_tells_apart(x: u64, y: u64)
    requires
        x.wrapping_mul(0x100000001b3u64) == y.wrapping_mul(0x100000001b3u64),
    ensures
        x == y,
{
    let modulus: int = 0x1_0000_0000_0000_0000;
    let prime: int = 0x100000001b3;
    let inverse: int = 14886173955864302971;
    let turns: int = 887285111055;
    let a = x as int;
    let b = y as int;
    assert(prime * inverse == 1 + turns * modulus);
    assert((a * prime) % modulus == (b * prime) % modulus);
    let d = (a * prime) / modulus - (b * prime) / modulus;
    lemma_fundamental_div_mod(a * prime, modulus);
    lemma_fundamental_div_mod(b * prime, modulus);
    assert(a * prime - b * prime == d * modulus) by (nonlinear_arith)
        requires
            a * prime == modulus * ((a * prime) / modulus) + (a * prime) % modulus,
            b * prime == modulus * ((b * prime) / modulus) + (b * prime) % modulus,
            (a * prime) % modulus == (b * prime) % modulus,
            d == (a * prime) / modulus - (b * prime) / modulus,
    ;
    let e = d * inverse - turns * (a - b);
    assert((a - b) == e * modulus) by (nonlinear_arith)
        requires
            a * prime - b * prime == d * modulus,
            prime * inverse == 1 + turns * modulus,
            e == d * inverse - turns * (a - b),
    ;
    assert(e == 0) by (nonlinear_arith)
        requires
            (a - b) == e * modulus,
            0 <= a < modulus,
            0 <= b < modulus,
            modulus == 0x1_0000_0000_0000_0000,
    ;
}

/// Bytes that differ in one place have different hashes.
pub proof fn law_hashes_tell_bytes_apart(one: Seq<u8>, other: Seq<u8>, k: int)
    requires
        one.len() == other.len(),
        0 <= k < one.len(),
        one[k] != other[k],
        forall|i: int| 0 <= i < one.len() && i != k ==> one[i] == other[i],
    ensures
        fnv_hash(one) != fnv_hash(other),
    decreases one.len(),
{
    let n = one.len() - 1;
    let h = fnv_hash(one.drop_last());
    let g = fnv_hash(other.drop_last());
    let a = one[n] as u64;
    let b = other[n] as u64;
    if k < n {
        law_hashes_tell_bytes_apart(one.drop_last(), other.drop_last(), k);
        assert(h != g ==> (h ^ a) != (g ^ a)) by (bit_vector);
    } else {
        assert(one.drop_last() =~= other.drop_last());
        assert(a != b ==> (h ^ a) != (h ^ b)) by (bit_vector);
    }
    if fnv_hash(one) == fnv_hash(other) {
        lemma_product_tells_apart(h ^ a, g ^ b);
    }
}

/// Puts the UTF-8 bytes of a text behind some bytes.
pub fn push_bytes(bytes: &mut Vec<u8>, s: &str)
    ensures
        final(bytes)@ == old(bytes)@ + encode_utf8(s@),
{
    let more = s.as_bytes();
    let ghost before = bytes@;
    let mut i: usize = 0;
    assert(bytes@ == before + more@.take(0));
    while i < more.len()
        invariant
            i <= more@.len(),
            bytes@ == before + more@.take(i as int),
        decreases more@.len() - i,
    {
        bytes.push(more[i]);
        proof {
            lemma_take_next(more@, i as int);
        }
        i = i + 1;
        assert(bytes@ == before + more@.take(i as int));
    }
    proof {
        lemma_take_all(more@);
    }
}

// ---------------------------------------------------------------------------
// Ids
// ---------------------------------------------------------------------------
/// The bytes of an optional text.
pub open spec fn optional_bytes(s: Option<Seq<char>>) -> Seq<u8> {
    match s {
        Some(t) => encode_utf8(t),
        None => Seq::empty(),
    }
}

/// The bytes of a repro: its command, then its path.
pub open spec fn repro_bytes(repro: Option<ReproCaseModel>) -> Seq<u8> {
    match repro {
        Some(r) => encode_utf8(r.command) + optional_bytes(r.path),
        None => Seq::empty(),
    }
}

/// The bytes that identify a finding: its message, target, artifact and repro
/// with a zero byte between them.
pub open spec fn identity_bytes(finding: FailureModel) -> Seq<u8> {
    encode_utf8(finding.message).push(0) + optional_bytes(finding.target_id).push(0)
        + optional_bytes(finding.artifact_id).push(0) + repro_bytes(finding.repro)
}

/// The id of a finding: `vts-` and sixteen hexadecimal digits.
pub open spec fn stable_id(finding: FailureModel) -> Seq<char> {
    "vts-"@ + hex_digits(fnv_hash(identity_bytes(finding)) as int, 16)
}

/// Two findings whose identifying bytes differ in one place have different ids.
pub proof fn law_ids_tell_findings_apart(a: FailureModel, b: FailureModel, k: int)
    requires
        identity_bytes(a).len() == identity_bytes(b).len(),
        0 <= k < identity_bytes(a).len(),
        identity_bytes(a)[k] != identity_bytes(b)[k],
        forall|i: int|
            0 <= i < identity_bytes(a).len() && i != k ==> identity_bytes(a)[i] == identity_bytes(
                b,
            )[i],
    ensures
        stable_id(a) != stable_id(b),
{
    law_hashes_tell_bytes_apart(identity_bytes(a), identity_bytes(b), k);
    if stable_id(a) == stable_id(b) {
        let one = hex_digits(fnv_hash(identity_bytes(a)) as int, 16);
        let other = hex_digits(fnv_hash(identity_bytes(b)) as int, 16);
        assert(one =~= stable_id(a).skip("vts-"@.len() as int));
        assert(other =~= stable_id(b).skip("vts-"@.len() as int));
        law_hex_digits_tell_numbers_apart(
            fnv_hash(identity_bytes(a)),
            fnv_hash(identity_bytes(b)),
        );
    }
}

/// A message, a target, an artifact and a repro each are part of what identifies a finding:
/// findings that agree in the others and differ in the bytes of one of them have other bytes.
pub proof fn law_every_part_identifies_a_finding(a: FailureModel, b: FailureModel)
    requires
        identity_bytes(a) == identity_bytes(b),
    ensures
        a.target_id == b.target_id && a.artifact_id == b.artifact_id && repro_bytes(a.repro)
            == repro_bytes(b.repro) ==> a.message == b.message,
        a.message == b.message && a.artifact_id == b.artifact_id && repro_bytes(a.repro)
            == repro_bytes(b.repro) ==> optional_bytes(a.target_id) == optional_bytes(b.target_id),
        a.message == b.message && a.target_id == b.target_id && repro_bytes(a.repro)
            == repro_bytes(b.repro) ==> optional_bytes(a.artifact_id) == optional_bytes(
            b.artifact_id,
        ),
        a.message == b.message && a.target_id == b.target_id && a.artifact_id == b.artifact_id
            ==> repro_bytes(a.repro) == repro_bytes(b.repro),
{
    let am = encode_utf8(a.message);
    let bm = encode_utf8(b.message);
    let at = optional_bytes(a.target_id);
    let bt = optional_bytes(b.target_id);
    let aa = optional_bytes(a.artifact_id);
    let ba = optional_bytes(b.artifact_id);
    let ar = repro_bytes(a.repro);
    let br = repro_bytes(b.repro);
    let x = identity_bytes(a);
    let y = identity_bytes(b);
    assert(x.len() == am.len() + at.len() + aa.len() + ar.len() + 3);
    assert(y.len() == bm.len() + bt.len() + ba.len() + br.len() + 3);
    if at == bt && aa == ba && ar == br {
        assert(am =~= x.take(am.len() as int));
        assert(bm =~= y.take(bm.len() as int));
        encode_utf8_decode_utf8(a.message);
        encode_utf8_decode_utf8(b.message);
    }
    if am == bm && aa == ba && ar == br {
        assert(at =~= x.subrange((am.len() + 1) as int, (am.len() + 1 + at.len()) as int));
        assert(bt =~= y.subrange((bm.len() + 1) as int, (bm.len() + 1 + bt.len()) as int));
    }
    if am == bm && at == bt && ar == br {
        assert(aa =~= x.subrange((am.len() + at.len() + 2) as int, (am.len() + at.len() + 2 + aa.len()) as int));
        assert(ba =~= y.subrange((bm.len() + bt.len() + 2) as int, (bm.len() + bt.len() + 2 + ba.len()) as int));
    }
    if am == bm && at == bt && aa == ba {
        assert(ar =~= x.skip((am.len() + at.len() + aa.len() + 3) as int));
        assert(br =~= y.skip((bm.len() + bt.len() + ba.len() + 3) as int));
    }
}

/// Different numbers of 64 bits have different hexadecimal digits.
pub proof fn law_hex_digits_tell_numbers_apart(a: u64, b: u64)
    requires
        hex_digits(a as int, 16) == hex_digits(b as int, 16),
    ensures
        a == b,
{
    assert(sixteens(16) == 0x1_0000_0000_0000_0000) by {
        reveal_with_fuel(sixteens, 17);
    }
    lemma_digits_tell_apart(a as int, b as int, 16);
}

spec fn sixteens(n: nat) -> int
    decreases n,
{
    if n == 0 {
        1
    } else {
        16 * sixteens((n - 1) as nat)
    }
}

proof fn lemma_digits_tell_apart(a: int, b: int, width: nat)
    requires
        0 <= a < sixteens(width),
        0 <= b < sixteens(width),
        hex_digits(a, width) == hex_digits(b, width),
    ensures
        a == b,
    decreases width,
{
    if width > 0 {
        let x = hex_digits(a / 16, (width - 1) as nat);
        let y = hex_digits(b / 16, (width - 1) as nat);
        let p = x.push(hex_char(a % 16));
        let q = y.push(hex_char(b % 16));
        assert(p == q);
        assert(p.last() == q.last());
        assert(x =~= p.drop_last());
        assert(y =~= q.drop_last());
        lemma_digits_tell_apart(a / 16, b / 16, (width - 1) as nat);
        assert(a % 16 == b % 16);
    }
}

/// The id of a finding.
pub fn stable_finding_id(finding: &Failure) -> (r: String)
    ensures
        r@ == stable_id(finding.deep_view()),
{
    let ghost f = finding.deep_view();
    let mut bytes: Vec<u8> = Vec::new();
    push_bytes(&mut bytes, finding.message.as_str());
    bytes.push(0);
    assert(bytes@ =~= encode_utf8(f.message).push(0));
    if let Some(target_id) = &finding.target_id {
        push_bytes(&mut bytes, target_id.as_str());
    }
    bytes.push(0);
    assert(bytes@ =~= encode_utf8(f.message).push(0) + optional_bytes(f.target_id).push(0));
    if let Some(artifact_id) = &finding.artifact_id {
        push_bytes(&mut bytes, artifact_id.as_str());
    }
    bytes.push(0);
    assert(bytes@ =~= encode_utf8(f.message).push(0) + optional_bytes(f.target_id).push(0)
        + optional_bytes(f.artifact_id).push(0));
    if let Some(repro) = &finding.repro {
        push_bytes(&mut bytes, repro.command.as_str());
        if let Some(path) = &repro.path {
            push_bytes(&mut bytes, path.as_str());
        }
    }
    assert(bytes@ =~= identity_bytes(f));
    let digits = print_hex(fnv1a64(&bytes));
    cat2("vts-", digits.as_str())
}

/// What a tool printed has no part in the id of a finding, nor has its
/// severity or the command that found it.
pub proof fn law_id_ignores_output(a: FailureModel, b: FailureModel)
    requires
        a.message == b.message,
        a.target_id == b.target_id,
        a.artifact_id == b.artifact_id,
        a.repro == b.repro,
    ensures
        stable_id(a) == stable_id(b),
{
}

/// A finding with an id: its own, or the stable one.
pub open spec fn identified(finding: FailureModel) -> FailureModel {
    FailureModel {
        id: match finding.id {
            Some(id) => Some(id),
            None => Some(stable_id(finding)),
        },
        ..finding
    }
}

/// All findings with ids.
pub open spec fn all_identified(findings: Seq<FailureModel>) -> Seq<FailureModel> {
    findings.map_values(|finding: FailureModel| identified(finding))
}

fn identify(finding: &mut Failure)
    ensures
        final(finding).deep_view() == identified(old(finding).deep_view()),
{
    if finding.id.is_none() {
        let id = stable_finding_id(finding);
        finding.id = Some(id);
    }
}

/// Gives every finding without an id its stable one.
pub fn identify_all(findings: Vec<Failure>) -> (r: Vec<Failure>)
    ensures
        r.deep_view() == all_identified(findings.deep_view()),
{
    let ghost all = findings.deep_view();
    let mut rest = findings;
    let mut out: Vec<Failure> = Vec::new();
    let mut i: usize = 0;
    let n: usize = rest.len();
    while i < n
        invariant
            i <= n,
            n == all.len(),
            rest@.len() == n - i,
            out@.len() == i,
            forall|j: int| 0 <= j < n - i ==> #[trigger] rest@[j].deep_view() == all[i + j],
            forall|j: int| 0 <= j < i ==> #[trigger] out@[j].deep_view() == identified(all[j]),
        decreases n - i,
    {
        assert(rest@[0].deep_view() == all[i + 0]);
        let ghost before = rest@;
        let mut finding = rest.remove(0);
        identify(&mut finding);
        out.push(finding);
        assert forall|j: int| 0 <= j < n - i - 1 implies #[trigger] rest@[j].deep_view() == all[i
            + 1 + j] by {
            assert(rest@[j] == before[j + 1]);
            assert(before[j + 1].deep_view() == all[i + (j + 1)]);
        }
        i = i + 1;
    }
    assert(out.deep_view() =~= all_identified(all));
    out
}

/// Gives every finding of a report an id.
pub fn assign_finding_ids(report: &mut VerificationReport)
    ensures
        final(report).deep_view() == (VerificationReportModel {
            findings: all_identified(old(report).deep_view().findings),
            ..old(report).deep_view()
        }),
{
    let mut findings: Vec<Failure> = Vec::new();
    std::mem::swap(&mut findings, &mut report.findings);
    report.findings = identify_all(findings);
}

/// A second assignment changes nothing.
pub proof fn law_identify_is_idempotent(findings: Seq<FailureModel>)
    ensures
        all_identified(all_identified(findings)) == all_identified(findings),
{
    assert(all_identified(all_identified(findings)) =~= all_identified(findings));
}

/// After an assignment every finding has an id, a given id is kept, and
/// nothing else of a finding changes.
pub proof fn law_identify_keeps_findings(findings: Seq<FailureModel>, i: int)
    requires
        0 <= i < findings.len(),
    ensures
        all_identified(findings).len() == findings.len(),
        all_identified(findings)[i].id is Some,
        findings[i].id is Some ==> all_identified(findings)[i] == findings[i],
        all_identified(findings)[i].message == findings[i].message,
        all_identified(findings)[i].severity == findings[i].severity,
        all_identified(findings)[i].target_id == findings[i].target_id,
        all_identified(findings)[i].repro == findings[i].repro,
{
}

// ---------------------------------------------------------------------------
// Accepted findings
// ---------------------------------------------------------------------------
/// The accepted ids, in order and each once, after the ids of these findings
/// that were asked for have been put in.
pub open spec fn accepted_after(
    accepted: Seq<Seq<char>>,
    findings: Seq<FailureModel>,
    ids: Seq<Seq<char>>,
    accept_all: bool,
) -> Seq<Seq<char>>
    decreases findings.len(),
{
    if findings.len() == 0 {
        accepted
    } else {
        let before = accepted_after(accepted, findings.drop_last(), ids, accept_all);
        match findings.last().id {
            Some(id) => if accept_all || ids.contains(id) {
                inserted::<ByText>(before, id)
            } else {
                before
            },
            None => before,
        }
    }
}

/// Accepts findings of a report: those named, or all of them. The list of
/// accepted ids stays sorted and without repetition.
pub fn accept_findings(
    report: &VerificationReport,
    accepted: Vec<String>,
    ids: &Vec<String>,
    accept_all: bool,
) -> (r: BaselineSummary)
    ensures
        r.deep_view() == (BaselineSummaryModel {
            path: ".veritas/baselines/findings.json"@,
            accepted_ids: accepted_after(
                accepted.deep_view(),
                report.deep_view().findings,
                ids.deep_view(),
                accept_all,
            ),
        }),
{
    let ghost start = accepted.deep_view();
    let ghost all = report.findings.deep_view();
    let ghost wanted = ids.deep_view();
    let mut out = accepted;
    let mut i: usize = 0;
    assert(all.take(0).len() == 0);
    while i < report.findings.len()
        invariant
            i <= report.findings@.len(),
            all == report.findings.deep_view(),
            wanted == ids.deep_view(),
            out.deep_view() == accepted_after(start, all.take(i as int), wanted, accept_all),
        decreases report.findings@.len() - i,
    {
        proof {
            lemma_take_next(all, i as int);
        }
        if let Some(id) = &report.findings[i].id {
            if accept_all || list_has(ids, id.as_str()) {
                insert::<ByText>(&mut out, id.clone());
            }
        }
        i = i + 1;
    }
    proof {
        lemma_take_all(all);
    }
    BaselineSummary { path: owned(".veritas/baselines/findings.json"), accepted_ids: out }
}

/// An id that was accepted stays accepted, and the list stays sorted.
pub proof fn law_acceptance_grows(
    accepted: Seq<Seq<char>>,
    findings: Seq<FailureModel>,
    ids: Seq<Seq<char>>,
    accept_all: bool,
    id: Seq<char>,
)
    requires
        accepted.contains(id),
        crate::order::ascending::<ByText>(accepted),
    ensures
        accepted_after(accepted, findings, ids, accept_all).contains(id),
        crate::order::ascending::<ByText>(accepted_after(accepted, findings, ids, accept_all)),
    decreases findings.len(),
{
    if findings.len() > 0 {
        law_acceptance_grows(accepted, findings.drop_last(), ids, accept_all, id);
        let before = accepted_after(accepted, findings.drop_last(), ids, accept_all);
        if let Some(new_id) = findings.last().id {
            crate::order::lemma_inserted_items::<ByText>(before, new_id);
            crate::order::lemma_inserted_ascending::<ByText>(before, new_id);
            if accept_all || ids.contains(new_id) {
                assert(inserted::<ByText>(before, new_id).contains(id));
            }
        }
    }
}

/// Accepting all accepts every finding that has an id.
pub proof fn law_accept_all_accepts_every_finding(
    accepted: Seq<Seq<char>>,
    findings: Seq<FailureModel>,
    ids: Seq<Seq<char>>,
    i: int,
)
    requires
        0 <= i < findings.len(),
        findings[i].id is Some,
    ensures
        accepted_after(accepted, findings, ids, true).contains(findings[i].id->0),
    decreases findings.len(),
{
    let before = accepted_after(accepted, findings.drop_last(), ids, true);
    if i == findings.len() - 1 {
        crate::order::lemma_inserted_holds(before, findings.last().id->0);
    } else {
        law_accept_all_accepts_every_finding(accepted, findings.drop_last(), ids, i);
        assert(findings.drop_last()[i] == findings[i]);
        if let Some(new_id) = findings.last().id {
            crate::order::lemma_inserted_items::<ByText>(before, new_id);
            assert(inserted::<ByText>(before, new_id).contains(findings[i].id->0));
        }
    }
}

} // verus!
