use vstd::prelude::*;
use vstd::string::StrSliceExecFns;
use crate::errors::{HarvestError, Outcome};
use crate::filename::{derive_filename, derive_spec, filename_result_view, url_shape_of, UrlShape};
use crate::headers::{header_match_spec, header_matches};
use crate::sanitize::sanitize_spec;

verus! {

/// A whitespace character: the Unicode White_Space set, the one trimming
/// removes, so that a line that is empty after trimming counts as blank.
pub open spec fn is_space_char(c: char) -> bool {
    ||| c == ' '
    ||| c == '\t'
    ||| c == '\n'
    ||| c == '\u{000B}'
    ||| c == '\u{000C}'
    ||| c == '\r'
    ||| c == '\u{0085}'
    ||| c == '\u{00A0}'
    ||| c == '\u{1680}'
    ||| ((c as u32) >= 0x2000 && (c as u32) <= 0x200A)
    ||| c == '\u{2028}'
    ||| c == '\u{2029}'
    ||| c == '\u{202F}'
    ||| c == '\u{205F}'
    ||| c == '\u{3000}'
}

/// Whether the character is Unicode whitespace.
fn is_space(c: char) -> (r: bool)
    ensures
        r == is_space_char(c),
{
    c == ' ' || c == '\t' || c == '\n' || c == '\u{000B}' || c == '\u{000C}' || c == '\r'
        || c == '\u{0085}' || c == '\u{00A0}' || c == '\u{1680}' || ((c as u32) >= 0x2000 && (c
        as u32) <= 0x200A) || c == '\u{2028}' || c == '\u{2029}' || c == '\u{202F}' || c
        == '\u{205F}' || c == '\u{3000}'
}

/// Whether a line is blank: empty, or whitespace alone.
pub open spec fn is_blank(s: Seq<char>) -> bool {
    forall|i: int| 0 <= i < s.len() ==> is_space_char(#[trigger] s[i])
}

/// Whether the line is blank and so is to be skipped without an outcome.
pub fn line_is_blank(line: &str) -> (r: bool)
    ensures
        r == is_blank(line@),
{
    let len = line.unicode_len();
    let mut i: usize = 0;
    while i < len
        invariant
            len == line@.len(),
            0 <= i <= len,
            forall|j: int| 0 <= j < i ==> is_space_char(#[trigger] line@[j]),
        decreases len - i,
    {
        let c = line.get_char(i);
        if !is_space(c) {
            return false;
        }
        i += 1;
    }
    true
}

/// What the orchestrator decides for one reading from the input source.
pub enum LinePlan {
    /// No unit of work: the read failed, or the line is blank.
    Skip,
    /// Spawn one unit of work for this URL.
    Job(String),
}

/// The specification counterpart of `LinePlan`.
pub enum LinePlanView {
    Skip,
    Job(Seq<char>),
}

impl View for LinePlan {
    type V = LinePlanView;

    open spec fn view(&self) -> LinePlanView {
        match self {
            LinePlan::Skip => LinePlanView::Skip,
            LinePlan::Job(url) => LinePlanView::Job(url@),
        }
    }
}

/// The view of one reading: `None` where the source itself failed on that
/// line.
pub open spec fn reading_view(line: Option<String>) -> Option<Seq<char>> {
    match line {
        None => None,
        Some(l) => Some(l@),
    }
}

/// What is owed to one reading: a failed read or a blank line is skipped
/// silently — it spawns nothing and gets no outcome — and anything else
/// becomes one unit of work.
pub open spec fn plan_spec(line: Option<Seq<char>>) -> LinePlanView {
    match line {
        None => LinePlanView::Skip,
        Some(l) => if is_blank(l) {
            LinePlanView::Skip
        } else {
            LinePlanView::Job(l)
        },
    }
}

/// Decide what to do with one reading from the input source.
pub fn plan_line(line: Option<String>) -> (r: LinePlan)
    ensures
        r@ == plan_spec(reading_view(line)),
{
    match line {
        None => LinePlan::Skip,
        Some(l) => {
            if line_is_blank(l.as_str()) {
                LinePlan::Skip
            } else {
                LinePlan::Job(l)
            }
        },
    }
}

/// Where one unit of work stands. The caller performs the outside action the
/// step names — probe, transfer, write — and hands the result back; every
/// decision in between is made here.
pub enum Step {
    /// Ask the transport for a byte-limited prefix of the resource.
    Probe { url: String, dest: String },
    /// Ask the transport for the full body of the resource.
    Fetch { url: String, dest: String },
    /// Write this body to the destination file, creating or truncating it.
    Write { dest: String, body: Vec<u8> },
    /// The unit is finished with this outcome.
    Done { outcome: Outcome },
}

/// The specification counterpart of `Step`.
pub enum StepView {
    Probe { url: Seq<char>, dest: Seq<char> },
    Fetch { url: Seq<char>, dest: Seq<char> },
    Write { dest: Seq<char>, body: Seq<u8> },
    Done { outcome: Outcome },
}

impl View for Step {
    type V = StepView;

    open spec fn view(&self) -> StepView {
        match self {
            Step::Probe { url, dest } => StepView::Probe { url: url@, dest: dest@ },
            Step::Fetch { url, dest } => StepView::Fetch { url: url@, dest: dest@ },
            Step::Write { dest, body } => StepView::Write { dest: dest@, body: body@ },
            Step::Done { outcome } => StepView::Done { outcome: *outcome },
        }
    }
}

/// The first step of a unit of work: derive the destination name; a URL that
/// yields none is finished at once with its failure, and otherwise the unit
/// probes first exactly when validation is enabled.
pub open spec fn start_spec(url: Seq<char>, validate: bool) -> StepView {
    match derive_spec(url) {
        Err(e) => StepView::Done { outcome: Outcome::Failure(e) },
        Ok(dest) => if validate {
            StepView::Probe { url, dest }
        } else {
            StepView::Fetch { url, dest }
        },
    }
}

/// Begin one unit of work for a URL.
pub fn start_job(url: String, validate: bool) -> (r: Step)
    ensures
        r@ == start_spec(url@, validate),
{
    match derive_filename(url.as_str()) {
        Err(e) => Step::Done { outcome: Outcome::Failure(e) },
        Ok(dest) => {
            if validate {
                Step::Probe { url, dest }
            } else {
                Step::Fetch { url, dest }
            }
        },
    }
}

/// The view of a probe response: the text the transport returned, or the
/// transport failure.
pub open spec fn probe_view(probe: Result<String, HarvestError>) -> Result<
    Seq<char>,
    HarvestError,
> {
    match probe {
        Ok(text) => Ok(text@),
        Err(e) => Err(e),
    }
}

/// The step after a probe: a transport failure is propagated unchanged; a
/// body that opens with a recognized header lets the full transfer proceed
/// for the same URL and destination; any other body finishes the unit with
/// `InvalidFormat`, before any transfer.
pub open spec fn on_probe_spec(
    url: Seq<char>,
    dest: Seq<char>,
    probe: Result<Seq<char>, HarvestError>,
) -> StepView {
    match probe {
        Err(e) => StepView::Done { outcome: Outcome::Failure(e) },
        Ok(text) => if header_match_spec(text) {
            StepView::Fetch { url, dest }
        } else {
            StepView::Done { outcome: Outcome::Failure(HarvestError::InvalidFormat) }
        },
    }
}

/// Decide what follows the validation probe.
pub fn on_probe(url: String, dest: String, probe: Result<String, HarvestError>) -> (r: Step)
    ensures
        r@ == on_probe_spec(url@, dest@, probe_view(probe)),
{
    match probe {
        Err(e) => Step::Done { outcome: Outcome::Failure(e) },
        Ok(text) => {
            if header_matches(text.as_str()) {
                Step::Fetch { url, dest }
            } else {
                Step::Done { outcome: Outcome::Failure(HarvestError::InvalidFormat) }
            }
        },
    }
}

/// The view of a full-transfer response: the body's bytes, or the transport
/// failure.
pub open spec fn fetch_view(fetch: Result<Vec<u8>, HarvestError>) -> Result<Seq<u8>, HarvestError> {
    match fetch {
        Ok(body) => Ok(body@),
        Err(e) => Err(e),
    }
}

/// The step after the full transfer: a failure is propagated unchanged, and
/// a fetched body goes to the write step byte for byte — nothing is
/// transformed.
pub open spec fn on_fetch_spec(dest: Seq<char>, fetch: Result<Seq<u8>, HarvestError>) -> StepView {
    match fetch {
        Err(e) => StepView::Done { outcome: Outcome::Failure(e) },
        Ok(body) => StepView::Write { dest, body },
    }
}

/// Decide what follows the full transfer.
pub fn on_fetch(dest: String, fetch: Result<Vec<u8>, HarvestError>) -> (r: Step)
    ensures
        r@ == on_fetch_spec(dest@, fetch_view(fetch)),
{
    match fetch {
        Err(e) => Step::Done { outcome: Outcome::Failure(e) },
        Ok(body) => Step::Write { dest, body },
    }
}

/// The outcome after the write: success exactly when the write succeeded.
pub open spec fn on_write_spec(write: Result<(), HarvestError>) -> Outcome {
    match write {
        Ok(u) => Outcome::Success,
        Err(e) => Outcome::Failure(e),
    }
}

/// Finish the unit of work with the write's result.
pub fn on_write(write: Result<(), HarvestError>) -> (r: Step)
    ensures
        r@ == (StepView::Done { outcome: on_write_spec(write) }),
{
    match write {
        Ok(u) => Step::Done { outcome: Outcome::Success },
        Err(e) => Step::Done { outcome: Outcome::Failure(e) },
    }
}

/// The outcome of the transfer-and-write tail of a unit of work.
pub open spec fn transfer_outcome(
    fetch: Result<Seq<u8>, HarvestError>,
    write: Result<(), HarvestError>,
) -> Outcome {
    match fetch {
        Err(e) => Outcome::Failure(e),
        Ok(body) => on_write_spec(write),
    }
}

/// The outcome of one whole unit of work, as a function of its own URL and
/// of the responses the outside world gave to that unit alone.
pub open spec fn job_outcome(
    url: Seq<char>,
    validate: bool,
    probe: Result<Seq<char>, HarvestError>,
    fetch: Result<Seq<u8>, HarvestError>,
    write: Result<(), HarvestError>,
) -> Outcome {
    match derive_spec(url) {
        Err(e) => Outcome::Failure(e),
        Ok(dest) => if validate {
            match probe {
                Err(e) => Outcome::Failure(e),
                Ok(text) => if header_match_spec(text) {
                    transfer_outcome(fetch, write)
                } else {
                    Outcome::Failure(HarvestError::InvalidFormat)
                },
            }
        } else {
            transfer_outcome(fetch, write)
        },
    }
}

/// One item of a batch: its line as read, and the responses the outside
/// world gave its unit of work.
pub struct ItemRun {
    pub line: Option<Seq<char>>,
    pub validate: bool,
    pub probe: Result<Seq<char>, HarvestError>,
    pub fetch: Result<Seq<u8>, HarvestError>,
    pub write: Result<(), HarvestError>,
}

/// What one item contributes to the batch: nothing for a skipped line, and
/// otherwise the outcome of its own unit of work.
pub open spec fn item_outcome(it: ItemRun) -> Option<Outcome> {
    match plan_spec(it.line) {
        LinePlanView::Skip => None,
        LinePlanView::Job(url) => Some(job_outcome(url, it.validate, it.probe, it.fetch, it.write)),
    }
}

/// Every item's contribution to a batch, in input order.
pub open spec fn per_item_outcomes(items: Seq<ItemRun>) -> Seq<Option<Outcome>> {
    items.map(|i: int, it: ItemRun| item_outcome(it))
}

/// A blank or unreadable line spawns no unit of work and reports no outcome:
/// its plan is `Skip` and its contribution to the batch is nothing.
pub proof fn lemma_blank_line_no_outcome(it: ItemRun)
    requires
        it.line is None || is_blank(it.line->0),
    ensures
        plan_spec(it.line) is Skip,
        item_outcome(it) is None,
{
}

/// With validation enabled, a probe that does not open with either
/// recognized header finishes the unit with `InvalidFormat` before any
/// transfer: the machine's first step is never a fetch or a write, the probe
/// step answers such a body with `Done`, and so no step ever asks for the
/// destination file to be created.
pub proof fn lemma_failed_probe_writes_nothing(
    url: Seq<char>,
    dest: Seq<char>,
    text: Seq<char>,
    fetch: Result<Seq<u8>, HarvestError>,
    write: Result<(), HarvestError>,
)
    requires
        !header_match_spec(text),
    ensures
        !(start_spec(url, true) is Fetch),
        !(start_spec(url, true) is Write),
        on_probe_spec(url, dest, Ok(text)) == (StepView::Done {
            outcome: Outcome::Failure(HarvestError::InvalidFormat),
        }),
        derive_spec(url) is Ok ==> job_outcome(url, true, Ok(text), fetch, write)
            == Outcome::Failure(HarvestError::InvalidFormat),
{
}

/// With validation enabled and a probe that opens with a recognized header,
/// the full transfer proceeds for the same URL and destination, and a
/// successful transfer hands the fetched body to the write step byte for
/// byte; when the write succeeds too, the unit's outcome is `Success`.
pub proof fn lemma_matching_probe_proceeds(
    url: Seq<char>,
    dest: Seq<char>,
    text: Seq<char>,
    body: Seq<u8>,
)
    requires
        header_match_spec(text),
    ensures
        on_probe_spec(url, dest, Ok(text)) == (StepView::Fetch { url, dest }),
        on_fetch_spec(dest, Ok(body)) == (StepView::Write { dest, body }),
        derive_spec(url) is Ok ==> job_outcome(url, true, Ok(text), Ok(body), Ok(()))
            == Outcome::Success,
{
}

/// Failure is isolated to its item: what one item contributes to the batch
/// is a function of that item's own line and responses alone, so replacing
/// any other item — however badly it fails — leaves the contribution
/// unchanged.
pub proof fn lemma_item_isolation(items: Seq<ItemRun>, j: int, replacement: ItemRun, i: int)
    requires
        0 <= i < items.len(),
        0 <= j < items.len(),
        i != j,
    ensures
        per_item_outcomes(items)[i] == item_outcome(items[i]),
        per_item_outcomes(items.update(j, replacement))[i] == per_item_outcomes(items)[i],
{
    assert(items.update(j, replacement)[i] == items[i]);
}

/// A well-formed sibling still succeeds whatever another item did: a URL
/// with a usable last segment whose transfer and write succeed yields
/// `Success`, with validation off or with a probe that matched.
pub proof fn lemma_sibling_success(
    url: Seq<char>,
    probe: Result<Seq<char>, HarvestError>,
    body: Seq<u8>,
)
    ensures
        url_shape_of(url) is LastSegment && url_shape_of(url)->LastSegment_0.len() > 0
            ==> job_outcome(url, false, probe, Ok(body), Ok(())) == Outcome::Success,
{
}

} // verus!
