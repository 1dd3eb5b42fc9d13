//! The two runs of the command-line tool, as decisions apart from their
//! printing: which vectors a generation run makes, with which names and
//! seeds, and how a verification run counts results and when it stops.

use vstd::prelude::*;
use crate::vectors::{TestVectorError, TestVectorFailure, outcome_view};

verus! {

/// The decimal digit of `d < 10`.
pub open spec fn digit_char(d: nat) -> char {
    (d + 48) as char
}

/// The decimal text of `n`, without leading zeros.
pub open spec fn decimal(n: nat) -> Seq<char>
    decreases n,
{
    if n < 10 {
        seq![digit_char(n)]
    } else {
        decimal(n / 10).push(digit_char(n % 10))
    }
}

/// The one-character text of a decimal digit.
fn digit_text(d: usize) -> (s: &'static str)
    requires
        d < 10,
    ensures
        s@ == seq![digit_char(d as nat)],
{
    proof {
        reveal_strlit("0");
        reveal_strlit("1");
        reveal_strlit("2");
        reveal_strlit("3");
        reveal_strlit("4");
        reveal_strlit("5");
        reveal_strlit("6");
        reveal_strlit("7");
        reveal_strlit("8");
        reveal_strlit("9");
    }
    if d == 0 {
        "0"
    } else if d == 1 {
        "1"
    } else if d == 2 {
        "2"
    } else if d == 3 {
        "3"
    } else if d == 4 {
        "4"
    } else if d == 5 {
        "5"
    } else if d == 6 {
        "6"
    } else if d == 7 {
        "7"
    } else if d == 8 {
        "8"
    } else {
        "9"
    }
}

/// The decimal text of `n`.
pub fn decimal_string(n: usize) -> (s: String)
    ensures
        s@ == decimal(n as nat),
    decreases n,
{
    if n < 10 {
        String::from_str(digit_text(n))
    } else {
        let mut s = decimal_string(n / 10);
        s.append(digit_text(n % 10));
        s
    }
}

/// One vector that a generation run makes, with the seeds of its keys and
/// preimages.
#[derive(Debug, Clone)]
pub enum PlannedVector {
    Basic { name: String, description: String, preimage_seed: u8, payer_seed: u8, recipient_seed: u8 },
    WithNote { name: String, note: String, preimage_seed: u8, payer_seed: u8, recipient_seed: u8 },
    InvalidPreimage {
        name: String,
        real_preimage_seed: u8,
        wrong_preimage_seed: u8,
        payer_seed: u8,
        recipient_seed: u8,
    },
    ExperimentalTlv { name: String, preimage_seed: u8, payer_seed: u8, recipient_seed: u8 },
}

/// The content of a [`PlannedVector`].
pub enum PlannedVectorView {
    Basic { name: Seq<char>, description: Seq<char>, preimage_seed: u8, payer_seed: u8, recipient_seed: u8 },
    WithNote { name: Seq<char>, note: Seq<char>, preimage_seed: u8, payer_seed: u8, recipient_seed: u8 },
    InvalidPreimage {
        name: Seq<char>,
        real_preimage_seed: u8,
        wrong_preimage_seed: u8,
        payer_seed: u8,
        recipient_seed: u8,
    },
    ExperimentalTlv { name: Seq<char>, preimage_seed: u8, payer_seed: u8, recipient_seed: u8 },
}

impl View for PlannedVector {
    type V = PlannedVectorView;

    open spec fn view(&self) -> PlannedVectorView {
        match self {
            PlannedVector::Basic { name, description, preimage_seed, payer_seed, recipient_seed } =>
                PlannedVectorView::Basic {
                name: name@,
                description: description@,
                preimage_seed: *preimage_seed,
                payer_seed: *payer_seed,
                recipient_seed: *recipient_seed,
            },
            PlannedVector::WithNote { name, note, preimage_seed, payer_seed, recipient_seed } =>
                PlannedVectorView::WithNote {
                name: name@,
                note: note@,
                preimage_seed: *preimage_seed,
                payer_seed: *payer_seed,
                recipient_seed: *recipient_seed,
            },
            PlannedVector::InvalidPreimage {
                name,
                real_preimage_seed,
                wrong_preimage_seed,
                payer_seed,
                recipient_seed,
            } => PlannedVectorView::InvalidPreimage {
                name: name@,
                real_preimage_seed: *real_preimage_seed,
                wrong_preimage_seed: *wrong_preimage_seed,
                payer_seed: *payer_seed,
                recipient_seed: *recipient_seed,
            },
            PlannedVector::ExperimentalTlv { name, preimage_seed, payer_seed, recipient_seed } =>
                PlannedVectorView::ExperimentalTlv {
                name: name@,
                preimage_seed: *preimage_seed,
                payer_seed: *payer_seed,
                recipient_seed: *recipient_seed,
            },
        }
    }
}

/// The byte `base + i` wraps to.
pub open spec fn seed_at(base: nat, i: nat) -> u8 {
    ((base + i) % 256) as u8
}

/// The `i`-th basic vector (counting from 0): `basic_{i+1}`, with seeds
/// counting up from 100, 42 and 43.
pub open spec fn basic_entry(i: nat) -> PlannedVectorView {
    PlannedVectorView::Basic {
        name: "basic_"@ + decimal(i + 1),
        description: "Basic payer proof with required fields only (test "@ + decimal(i + 1) + ")"@,
        preimage_seed: seed_at(100, i),
        payer_seed: seed_at(42, i),
        recipient_seed: seed_at(43, i),
    }
}

/// The name and note of the `i`-th vector with a note.
pub open spec fn note_text(i: nat) -> (Seq<char>, Seq<char>) {
    if i == 0 {
        ("with_note_simple"@, "Payment for coffee"@)
    } else if i == 1 {
        ("with_note_service"@, "Payment for consulting service"@)
    } else {
        ("with_note_long"@, "This is a longer note describing the payment purpose"@)
    }
}

/// The `i`-th vector with a note, with seeds counting up from 150, 50 and 51.
pub open spec fn note_entry(i: nat) -> PlannedVectorView {
    PlannedVectorView::WithNote {
        name: note_text(i).0,
        note: note_text(i).1,
        preimage_seed: seed_at(150, i),
        payer_seed: seed_at(50, i),
        recipient_seed: seed_at(51, i),
    }
}

/// The vector with a wrong preimage.
pub open spec fn invalid_entry() -> PlannedVectorView {
    PlannedVectorView::InvalidPreimage {
        name: "invalid_preimage"@,
        real_preimage_seed: 200,
        wrong_preimage_seed: 201,
        payer_seed: 60,
        recipient_seed: 61,
    }
}

/// The vector with an experimental invoice TLV, which every run makes.
pub open spec fn experimental_entry() -> PlannedVectorView {
    PlannedVectorView::ExperimentalTlv {
        name: "included_experimental_invoice_tlv"@,
        preimage_seed: 210,
        payer_seed: 70,
        recipient_seed: 71,
    }
}

/// The vectors of a generation run, in order: `basic_count` basic ones, the
/// three with notes unless skipped, the invalid one unless skipped, and the
/// experimental one always.
pub open spec fn generation_plan_spec(
    basic_count: nat,
    include_notes: bool,
    include_invalid: bool,
) -> Seq<PlannedVectorView> {
    Seq::new(basic_count, |i: int| basic_entry(i as nat)) + (if include_notes {
        Seq::new(3, |i: int| note_entry(i as nat))
    } else {
        Seq::empty()
    }) + (if include_invalid {
        seq![invalid_entry()]
    } else {
        Seq::empty()
    }) + seq![experimental_entry()]
}

/// Every generation run makes the experimental-TLV regression vector, last,
/// whichever optional categories it skips; the run makes `basic_count` basic
/// vectors, three with notes unless skipped and one invalid unless skipped.
pub proof fn lemma_plan_always_ends_with_regression_vector(
    basic_count: nat,
    include_notes: bool,
    include_invalid: bool,
)
    ensures
        ({
            let plan = generation_plan_spec(basic_count, include_notes, include_invalid);
            &&& plan.len() == basic_count + (if include_notes { 3nat } else { 0nat }) + (if include_invalid {
                1nat
            } else {
                0nat
            }) + 1
            &&& plan.last() == experimental_entry()
            &&& forall|i: int| 0 <= i < basic_count ==> plan[i] == basic_entry(i as nat)
        }),
{
}

proof fn lemma_seed_at(base: nat, i: nat)
    ensures
        seed_at(base, i) as int == (base + i) % 256,
{
}

proof fn lemma_seed_at_distinct(base: nat, i: nat, j: nat)
    requires
        i < j < 256,
    ensures
        seed_at(base, i) != seed_at(base, j),
{
    lemma_seed_at(base, i);
    lemma_seed_at(base, j);
}

/// The `i`-th basic vector of a run (from 0) is `basic_{i+1}`, built from
/// the preimage, payer and recipient seeds `100 + i`, `42 + i` and `43 + i`
/// (wrapping past 255); so in a run of at most 256 basic vectors no two share
/// a preimage, payer or recipient seed.
pub proof fn lemma_plan_basic_entries(basic_count: nat, include_notes: bool, include_invalid: bool)
    ensures
        ({
            let plan = generation_plan_spec(basic_count, include_notes, include_invalid);
            &&& forall|i: int|
                0 <= i < basic_count ==> (#[trigger] plan[i] matches PlannedVectorView::Basic {
                    name,
                    preimage_seed,
                    payer_seed,
                    recipient_seed,
                    ..
                } && name == "basic_"@ + decimal((i + 1) as nat) && preimage_seed as int == (100 + i)
                    % 256 && payer_seed as int == (42 + i) % 256 && recipient_seed as int == (43 + i)
                    % 256)
            &&& basic_count <= 256 ==> forall|i: int, j: int|
                0 <= i < j < basic_count ==> (#[trigger] plan[i] matches PlannedVectorView::Basic {
                    preimage_seed: pi,
                    payer_seed: qi,
                    recipient_seed: ri,
                    ..
                } && #[trigger] plan[j] matches PlannedVectorView::Basic {
                    preimage_seed: pj,
                    payer_seed: qj,
                    recipient_seed: rj,
                    ..
                } && pi != pj && qi != qj && ri != rj)
        }),
{
    let plan = generation_plan_spec(basic_count, include_notes, include_invalid);
    assert forall|i: int| 0 <= i < basic_count implies (#[trigger] plan[i] matches PlannedVectorView::Basic {
        name,
        preimage_seed,
        payer_seed,
        recipient_seed,
        ..
    } && name == "basic_"@ + decimal((i + 1) as nat) && preimage_seed as int == (100 + i) % 256
        && payer_seed as int == (42 + i) % 256 && recipient_seed as int == (43 + i) % 256) by {
        assert(plan[i] == basic_entry(i as nat));
        lemma_seed_at(100, i as nat);
        lemma_seed_at(42, i as nat);
        lemma_seed_at(43, i as nat);
    }
    if basic_count <= 256 {
        assert forall|i: int, j: int| 0 <= i < j < basic_count implies (#[trigger] plan[i] matches PlannedVectorView::Basic {
            preimage_seed: pi,
            payer_seed: qi,
            recipient_seed: ri,
            ..
        } && #[trigger] plan[j] matches PlannedVectorView::Basic {
            preimage_seed: pj,
            payer_seed: qj,
            recipient_seed: rj,
            ..
        } && pi != pj && qi != qj && ri != rj) by {
            assert(plan[i] == basic_entry(i as nat));
            assert(plan[j] == basic_entry(j as nat));
            lemma_seed_at_distinct(100, i as nat, j as nat);
            lemma_seed_at_distinct(42, i as nat, j as nat);
            lemma_seed_at_distinct(43, i as nat, j as nat);
        }
    }
}

/// A run with notes makes, right after its basic vectors and in this order,
/// `with_note_simple` ("Payment for coffee"), `with_note_service` ("Payment
/// for consulting service") and `with_note_long` ("This is a longer note
/// describing the payment purpose"), the `k`-th from the preimage, payer and
/// recipient seeds `150 + k`, `50 + k` and `51 + k`; a run without notes makes
/// none.
pub proof fn lemma_plan_note_entries(basic_count: nat, include_notes: bool, include_invalid: bool)
    ensures
        ({
            let plan = generation_plan_spec(basic_count, include_notes, include_invalid);
            &&& include_notes ==> plan[basic_count as int] == PlannedVectorView::WithNote {
                name: "with_note_simple"@,
                note: "Payment for coffee"@,
                preimage_seed: 150,
                payer_seed: 50,
                recipient_seed: 51,
            }
            &&& include_notes ==> plan[basic_count + 1int] == PlannedVectorView::WithNote {
                name: "with_note_service"@,
                note: "Payment for consulting service"@,
                preimage_seed: 151,
                payer_seed: 51,
                recipient_seed: 52,
            }
            &&& include_notes ==> plan[basic_count + 2int] == PlannedVectorView::WithNote {
                name: "with_note_long"@,
                note: "This is a longer note describing the payment purpose"@,
                preimage_seed: 152,
                payer_seed: 52,
                recipient_seed: 53,
            }
            &&& forall|i: int| 0 <= i < plan.len() && #[trigger] plan[i] is WithNote ==> include_notes
                && basic_count <= i < basic_count + 3
        }),
{
    let plan = generation_plan_spec(basic_count, include_notes, include_invalid);
    assert forall|i: int| 0 <= i < plan.len() && #[trigger] plan[i] is WithNote implies include_notes
        && basic_count <= i < basic_count + 3 by {
        if i < basic_count {
            assert(plan[i] == basic_entry(i as nat));
        }
    }
}

/// The content of a list of planned vectors.
pub open spec fn plan_view(v: Seq<PlannedVector>) -> Seq<PlannedVectorView> {
    v.map_values(|p: PlannedVector| p@)
}

/// The byte `base + i` wraps to.
fn wrapping_seed(base: u8, i: usize) -> (b: u8)
    ensures
        b == seed_at(base as nat, i as nat),
{
    let low = (i % 256) as u16;
    assert((base as nat + i as nat) % 256 == (base as nat + (i % 256) as nat) % 256) by (nonlinear_arith);
    ((base as u16 + low) % 256) as u8
}

proof fn lemma_plan_view_push(v: Seq<PlannedVector>, p: PlannedVector)
    ensures
        plan_view(v.push(p)) =~= plan_view(v).push(p@),
{
}

/// The `i`-th basic vector.
fn basic_planned(i: usize) -> (p: PlannedVector)
    requires
        i < usize::MAX,
    ensures
        p@ == basic_entry(i as nat),
{
    let n = decimal_string(i + 1);
    let mut name = String::from_str("basic_");
    name.append(n.as_str());
    let mut description = String::from_str("Basic payer proof with required fields only (test ");
    description.append(n.as_str());
    description.append(")");
    PlannedVector::Basic {
        name,
        description,
        preimage_seed: wrapping_seed(100, i),
        payer_seed: wrapping_seed(42, i),
        recipient_seed: wrapping_seed(43, i),
    }
}

/// The `i`-th vector with a note.
fn note_planned(i: usize) -> (p: PlannedVector)
    requires
        i < 3,
    ensures
        p@ == note_entry(i as nat),
{
    let (name, note) = if i == 0 {
        ("with_note_simple", "Payment for coffee")
    } else if i == 1 {
        ("with_note_service", "Payment for consulting service")
    } else {
        ("with_note_long", "This is a longer note describing the payment purpose")
    };
    PlannedVector::WithNote {
        name: String::from_str(name),
        note: String::from_str(note),
        preimage_seed: (150 + i) as u8,
        payer_seed: (50 + i) as u8,
        recipient_seed: (51 + i) as u8,
    }
}

/// Which vectors a generation run makes, in order.
pub fn generation_plan(basic_count: usize, include_notes: bool, include_invalid: bool) -> (plan: Vec<
    PlannedVector,
>)
    ensures
        plan_view(plan@) == generation_plan_spec(basic_count as nat, include_notes, include_invalid),
{
    let mut plan: Vec<PlannedVector> = Vec::new();
    let mut i: usize = 0;
    while i < basic_count
        invariant
            i <= basic_count,
            plan_view(plan@) == Seq::new(i as nat, |k: int| basic_entry(k as nat)),
        decreases basic_count - i,
    {
        let p = basic_planned(i);
        let ghost old_plan = plan@;
        let ghost pv = p@;
        plan.push(p);
        proof {
            assert(plan@ == old_plan.push(p));
            lemma_plan_view_push(old_plan, p);
        }
        i = i + 1;
        assert(plan_view(plan@) =~= Seq::new(i as nat, |k: int| basic_entry(k as nat)));
    }
    let ghost basics = plan_view(plan@);
    if include_notes {
        let mut j: usize = 0;
        while j < 3
            invariant
                j <= 3,
                plan_view(plan@) == basics + Seq::new(j as nat, |k: int| note_entry(k as nat)),
            decreases 3 - j,
        {
            let p = note_planned(j);
            let ghost old_plan = plan@;
            plan.push(p);
            proof {
                lemma_plan_view_push(old_plan, p);
            }
            j = j + 1;
            assert(plan_view(plan@) =~= basics + Seq::new(j as nat, |k: int| note_entry(k as nat)));
        }
    }
    let ghost with_notes = plan_view(plan@);
    if include_invalid {
        let p = PlannedVector::InvalidPreimage {
            name: String::from_str("invalid_preimage"),
            real_preimage_seed: 200,
            wrong_preimage_seed: 201,
            payer_seed: 60,
            recipient_seed: 61,
        };
        let ghost old_plan = plan@;
        plan.push(p);
        proof {
            lemma_plan_view_push(old_plan, p);
        }
        assert(plan_view(plan@) =~= with_notes + seq![invalid_entry()]);
    }
    let ghost before_last = plan_view(plan@);
    let p = PlannedVector::ExperimentalTlv {
        name: String::from_str("included_experimental_invoice_tlv"),
        preimage_seed: 210,
        payer_seed: 70,
        recipient_seed: 71,
    };
    let ghost old_plan = plan@;
    plan.push(p);
    proof {
        lemma_plan_view_push(old_plan, p);
    }
    assert(plan_view(plan@) =~= before_last + seq![experimental_entry()]);
    assert(plan_view(plan@) =~= generation_plan_spec(basic_count as nat, include_notes, include_invalid));
    plan
}

/// The text recorded for a vector that failed: a check that returned
/// `false`, or the error's message.
pub open spec fn failure_text(outcome: Result<bool, TestVectorFailure>) -> Seq<char> {
    match outcome {
        Ok(_) => "Verification returned false"@,
        Err(e) => e.message(),
    }
}

/// The counts and failures of a verification run so far.
pub struct VerificationTally {
    pub passed: usize,
    pub failed: usize,
    /// Name and failure text of each vector that failed, in order.
    pub errors: Vec<(String, String)>,
}

impl VerificationTally {
    /// Every failure is listed.
    pub open spec fn wf(&self) -> bool {
        self.errors@.len() == self.failed
    }

    /// A run that has checked nothing yet.
    pub fn new() -> (t: Self)
        ensures
            t.wf(),
            t.passed == 0,
            t.failed == 0,
    {
        VerificationTally { passed: 0, failed: 0, errors: Vec::new() }
    }

    /// Counts the outcome of checking the vector `name` and says whether the
    /// run goes on: after a pass always, after a failure only when asked to
    /// continue on failure.
    pub fn record(
        &mut self,
        name: &String,
        outcome: &Result<bool, TestVectorError>,
        continue_on_failure: bool,
    ) -> (go_on: bool)
        requires
            old(self).wf(),
            old(self).passed + old(self).failed < usize::MAX,
        ensures
            final(self).wf(),
            final(self).passed + final(self).failed == old(self).passed + old(self).failed + 1,
            outcome matches Ok(true) ==> {
                &&& final(self).passed == old(self).passed + 1
                &&& final(self).errors@ == old(self).errors@
                &&& go_on
            },
            !(outcome matches Ok(true)) ==> {
                &&& final(self).passed == old(self).passed
                &&& final(self).errors@.len() == old(self).errors@.len() + 1
                &&& final(self).errors@.take(old(self).errors@.len() as int) == old(self).errors@
                &&& final(self).errors@.last().0@ == name@
                &&& final(self).errors@.last().1@ == failure_text(outcome_view(*outcome))
                &&& go_on == continue_on_failure
            },
    {
        match outcome {
            Ok(true) => {
                self.passed = self.passed + 1;
                true
            },
            Ok(false) => {
                self.failed = self.failed + 1;
                let ghost before = self.errors@;
                self.errors.push((name.clone(), String::from_str("Verification returned false")));
                assert(self.errors@.take(before.len() as int) =~= before);
                continue_on_failure
            },
            Err(e) => {
                self.failed = self.failed + 1;
                let ghost before = self.errors@;
                self.errors.push((name.clone(), e.message()));
                assert(self.errors@.take(before.len() as int) =~= before);
                continue_on_failure
            },
        }
    }

    /// The number of vectors checked so far.
    pub fn total(&self) -> (n: usize)
        requires
            self.passed + self.failed <= usize::MAX,
        ensures
            n == self.passed + self.failed,
    {
        self.passed + self.failed
    }

    /// No vector failed.
    pub fn all_passed(&self) -> (b: bool)
        requires
            self.wf(),
        ensures
            b == (self.failed == 0),
    {
        self.errors.len() == 0
    }
}

} // verus!
