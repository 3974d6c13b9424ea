//! The extraction policy: turns the set of clipboard formats advertised by
//! the native provider into exactly one [`Body`], following a fixed priority
//! order, with size gating and a caller-supplied gatekeeper consulted before any
//! content is read.
//!
//! The policy is driven as a state machine ([`Resolver`]): the platform
//! driver asks which read to perform next ([`Resolver::request`]), performs
//! the native transfer, and hands the outcome back
//! ([`Resolver::advance`]). All decisions — the priority walk, falling
//! through size-gated or empty tiers, attaching a single file path to an
//! image, and the final error classification — are made here and proved
//! against the pure resolution function [`spec_resolve`].
//!
//! Priority order, first match wins:
//! 1. custom formats, in caller-given order; 2. PNG-encoded image;
//! 3. raw image; 4. file list; 5. HTML; 6. plain text.
//!
//! Size gating applies only to images and custom formats. A tier whose
//! content is empty or beyond the size limit is treated as effectively
//! absent and resolution continues with the next tier; only when the catalog
//! advertises formats and no known tier is present at all does resolution
//! fail with `NoMatchingFormat`.

use vstd::prelude::*;

use crate::body::{BodyModel, RawImageModel};
use crate::error::{ClipboardError, ErrorModel};

verus! {

/// Which of the known content tiers the current clipboard snapshot
/// advertises. Built once per detected change from the native format
/// enumeration.
pub struct TierCatalog {
    /// Presence of each monitored custom format, parallel to the list of
    /// monitored names.
    pub custom_present: Vec<bool>,
    /// A PNG-encoded image is advertised.
    pub png: bool,
    /// A platform-native raw image (DIB, TIFF) is advertised.
    pub raw_image: bool,
    /// A file list is advertised.
    pub file_list: bool,
    /// HTML text is advertised.
    pub html: bool,
    /// Plain text is advertised.
    pub text: bool,
    /// The native enumeration advertised at least one format of any kind
    /// (after discarding provider bookkeeping markers).
    pub any_formats: bool,
}

/// Mathematical model of a [`TierCatalog`].
pub struct CatalogModel {
    pub custom: Seq<bool>,
    pub png: bool,
    pub raw_image: bool,
    pub file_list: bool,
    pub html: bool,
    pub text: bool,
    pub any_formats: bool,
}

impl View for TierCatalog {
    type V = CatalogModel;

    open spec fn view(&self) -> CatalogModel {
        CatalogModel {
            custom: self.custom_present@,
            png: self.png,
            raw_image: self.raw_image,
            file_list: self.file_list,
            html: self.html,
            text: self.text,
            any_formats: self.any_formats,
        }
    }
}

/// Deep view of a list of strings.
pub open spec fn strs_view(v: Seq<String>) -> Seq<Seq<char>> {
    v.map_values(|s: String| s@)
}

/// Number of tiers: one per monitored custom format, then PNG, raw image,
/// file list, HTML, plain text.
pub open spec fn tier_count(cat: CatalogModel) -> int {
    cat.custom.len() as int + 5
}

/// Whether tier `i` is advertised by the snapshot.
pub open spec fn tier_present(cat: CatalogModel, i: int) -> bool
    recommends
        0 <= i < tier_count(cat),
{
    let n = cat.custom.len() as int;
    if i < n {
        cat.custom[i]
    } else if i == n {
        cat.png
    } else if i == n + 1 {
        cat.raw_image
    } else if i == n + 2 {
        cat.file_list
    } else if i == n + 3 {
        cat.html
    } else {
        cat.text
    }
}

/// Whether any known tier is advertised.
pub open spec fn some_tier_present(cat: CatalogModel) -> bool {
    exists|i: int| 0 <= i < tier_count(cat) && tier_present(cat, i)
}

/// The outcome of one native read attempted for the policy.
#[derive(Debug, Clone, PartialEq, Eq)]
pub enum ReadOutcome {
    /// Payload of a custom format or a PNG image.
    Bytes(Vec<u8>),
    /// A raw image already normalized to rgb8 by the platform codec.
    Image { bytes: Vec<u8>, width: u32, height: u32 },
    /// The entries of the file list.
    Files(Vec<String>),
    /// HTML or plain text.
    Text(String),
    /// The format reported size zero.
    Empty,
    /// The reported size exceeds the configured limit.
    TooLarge,
    /// The format vanished between enumeration and the read.
    Unavailable,
    /// The transfer failed; the message describes the native failure.
    Failed(String),
}

/// Mathematical model of a [`ReadOutcome`].
pub enum OutcomeModel {
    Bytes(Seq<u8>),
    Image { bytes: Seq<u8>, width: u32, height: u32 },
    Files(Seq<Seq<char>>),
    Text(Seq<char>),
    Empty,
    TooLarge,
    Unavailable,
    Failed(Seq<char>),
}

impl View for ReadOutcome {
    type V = OutcomeModel;

    open spec fn view(&self) -> OutcomeModel {
        match self {
            ReadOutcome::Bytes(b) => OutcomeModel::Bytes(b@),
            ReadOutcome::Image { bytes, width, height } => OutcomeModel::Image {
                bytes: bytes@,
                width: *width,
                height: *height,
            },
            ReadOutcome::Files(l) => OutcomeModel::Files(strs_view(l@)),
            ReadOutcome::Text(t) => OutcomeModel::Text(t@),
            ReadOutcome::Empty => OutcomeModel::Empty,
            ReadOutcome::TooLarge => OutcomeModel::TooLarge,
            ReadOutcome::Unavailable => OutcomeModel::Unavailable,
            ReadOutcome::Failed(m) => OutcomeModel::Failed(m@),
        }
    }
}

/// An outcome carries usable content: a non-empty payload of the right
/// shape. Empty payloads are treated exactly like the soft outcomes.
pub open spec fn outcome_is_data(o: OutcomeModel) -> bool {
    match o {
        OutcomeModel::Bytes(b) => b.len() > 0,
        OutcomeModel::Image { bytes, .. } => bytes.len() > 0,
        OutcomeModel::Files(l) => l.len() > 0,
        OutcomeModel::Text(t) => t.len() > 0,
        _ => false,
    }
}

/// The transfer itself failed: surfaced as a read error for this cycle.
pub open spec fn outcome_is_failed(o: OutcomeModel) -> bool {
    o matches OutcomeModel::Failed(_)
}

/// A soft outcome: the tier is treated as effectively absent and
/// resolution continues with the next one.
pub open spec fn outcome_is_soft(o: OutcomeModel) -> bool {
    !outcome_is_data(o) && !outcome_is_failed(o)
}

/// The diagnostic message of a failed outcome.
pub open spec fn failed_message(o: OutcomeModel) -> Seq<char>
    recommends
        outcome_is_failed(o),
{
    match o {
        OutcomeModel::Failed(m) => m,
        _ => arbitrary(),
    }
}

/// The payload kinds a tier can produce: bytes for custom formats and PNG,
/// a decoded image for the raw tier, paths for the file list, text for HTML
/// and plain text. Soft and failed outcomes fit every tier.
pub open spec fn outcome_fits_tier(n: int, i: int, o: OutcomeModel) -> bool {
    match o {
        OutcomeModel::Bytes(_) => i <= n,
        OutcomeModel::Image { .. } => i == n + 1,
        OutcomeModel::Files(_) => i == n + 2,
        OutcomeModel::Text(_) => i == n + 3 || i == n + 4,
        _ => true,
    }
}

/// Snapshot of the outcome every tier's read would produce. Used to state
/// resolution as a pure function; the platform drivers instead perform only
/// the reads the [`Resolver`] actually requests.
pub struct OutcomeTable {
    pub custom: Vec<ReadOutcome>,
    pub png: ReadOutcome,
    pub raw_image: ReadOutcome,
    pub file_list: ReadOutcome,
    pub html: ReadOutcome,
    pub text: ReadOutcome,
}

/// Mathematical model of an [`OutcomeTable`].
pub struct TableModel {
    pub custom: Seq<OutcomeModel>,
    pub png: OutcomeModel,
    pub raw_image: OutcomeModel,
    pub file_list: OutcomeModel,
    pub html: OutcomeModel,
    pub text: OutcomeModel,
}

impl View for OutcomeTable {
    type V = TableModel;

    open spec fn view(&self) -> TableModel {
        TableModel {
            custom: self.custom@.map_values(|o: ReadOutcome| o@),
            png: self.png@,
            raw_image: self.raw_image@,
            file_list: self.file_list@,
            html: self.html@,
            text: self.text@,
        }
    }
}

/// The outcome the table holds for tier `i`.
pub open spec fn table_outcome(t: TableModel, n: int, i: int) -> OutcomeModel
    recommends
        0 <= i < n + 5,
        t.custom.len() == n,
{
    if i < n {
        t.custom[i]
    } else if i == n {
        t.png
    } else if i == n + 1 {
        t.raw_image
    } else if i == n + 2 {
        t.file_list
    } else if i == n + 3 {
        t.html
    } else {
        t.text
    }
}

/// A table is shaped for a catalog: one custom entry per monitored format,
/// every entry of the payload kind its tier can produce.
pub open spec fn table_fits(cat: CatalogModel, t: TableModel) -> bool {
    &&& t.custom.len() == cat.custom.len()
    &&& forall|i: int|
        0 <= i < tier_count(cat) ==> outcome_fits_tier(
            cat.custom.len() as int,
            i,
            #[trigger] table_outcome(t, cat.custom.len() as int, i),
        )
}

/// The path attached to a selected image: present exactly when the file
/// list format is advertised alongside the image and holds a single entry.
/// A list with more than one entry is never treated as an image path hint.
pub open spec fn hint_path_model(cat: CatalogModel, files_outcome: OutcomeModel) -> Option<
    Seq<char>,
> {
    if cat.file_list {
        match files_outcome {
            OutcomeModel::Files(l) => if l.len() == 1 {
                Some(l[0])
            } else {
                None
            },
            _ => None,
        }
    } else {
        None
    }
}

/// The body published when tier `i` yields data `o`, with `hint` the path
/// attached to an image tier.
pub open spec fn body_at_tier(
    customs: Seq<Seq<char>>,
    i: int,
    o: OutcomeModel,
    hint: Option<Seq<char>>,
) -> BodyModel
    recommends
        0 <= i < customs.len() + 5,
        outcome_is_data(o),
        outcome_fits_tier(customs.len() as int, i, o),
{
    let n = customs.len() as int;
    if i < n {
        BodyModel::Custom { name: customs[i], data: o->Bytes_0 }
    } else if i == n {
        BodyModel::PngImage { bytes: o->Bytes_0, path: hint }
    } else if i == n + 1 {
        BodyModel::RawImage(
            RawImageModel {
                bytes: o->Image_bytes,
                width: o->Image_width,
                height: o->Image_height,
                path: hint,
            },
        )
    } else if i == n + 2 {
        BodyModel::FileList(o->Files_0)
    } else if i == n + 3 {
        BodyModel::Html(o->Text_0)
    } else {
        BodyModel::PlainText(o->Text_0)
    }
}

/// The outcome of one resolution cycle.
#[derive(Debug, Clone, PartialEq, Eq)]
pub enum Resolution {
    /// A body was extracted; publish it to every subscriber.
    Publish(crate::body::Body),
    /// Content was present but intentionally skipped (gatekeeper veto, empty
    /// content, or content beyond the size limit): no event at all.
    Skip,
    /// The cycle failed; publish the error to every subscriber.
    Fail(ClipboardError),
}

/// Mathematical model of a [`Resolution`].
pub enum ResolutionModel {
    Publish(BodyModel),
    Skip,
    Fail(ErrorModel),
}

impl View for Resolution {
    type V = ResolutionModel;

    open spec fn view(&self) -> ResolutionModel {
        match self {
            Resolution::Publish(b) => ResolutionModel::Publish(b@),
            Resolution::Skip => ResolutionModel::Skip,
            Resolution::Fail(e) => ResolutionModel::Fail(e@),
        }
    }
}

/// What resolution reports when every tier has been passed over: an error
/// only when the snapshot advertised formats and none of the known tiers
/// was present at all.
pub open spec fn end_resolution(cat: CatalogModel) -> ResolutionModel {
    if cat.any_formats && !some_tier_present(cat) {
        ResolutionModel::Fail(ErrorModel::NoMatchingFormat)
    } else {
        ResolutionModel::Skip
    }
}

/// Pure resolution, walking the tiers from `i` upwards: the first present
/// tier whose read yields data determines the body; a failed read ends the
/// cycle with its error; soft outcomes fall through.
pub open spec fn spec_resolve_from(
    cat: CatalogModel,
    customs: Seq<Seq<char>>,
    t: TableModel,
    i: int,
) -> ResolutionModel
    recommends
        0 <= i,
        customs.len() == cat.custom.len(),
        table_fits(cat, t),
    decreases tier_count(cat) - i,
{
    if i >= tier_count(cat) {
        end_resolution(cat)
    } else if !tier_present(cat, i) {
        spec_resolve_from(cat, customs, t, i + 1)
    } else {
        let o = table_outcome(t, cat.custom.len() as int, i);
        if outcome_is_failed(o) {
            ResolutionModel::Fail(ErrorModel::ReadError(failed_message(o)))
        } else if outcome_is_data(o) {
            ResolutionModel::Publish(
                body_at_tier(customs, i, o, hint_path_model(cat, t.file_list)),
            )
        } else {
            spec_resolve_from(cat, customs, t, i + 1)
        }
    }
}

/// Pure resolution of a whole cycle: a gatekeeper veto skips the cycle before any
/// read; otherwise the tiers are walked from the highest priority down.
pub open spec fn spec_resolve(
    cat: CatalogModel,
    customs: Seq<Seq<char>>,
    t: TableModel,
    gate_allowed: bool,
) -> ResolutionModel {
    if !gate_allowed {
        ResolutionModel::Skip
    } else {
        spec_resolve_from(cat, customs, t, 0)
    }
}

/// The read the resolver needs next. Size gating applies to the custom,
/// PNG and raw-image reads only, never to text-based formats.
#[derive(Debug, Clone, PartialEq, Eq)]
pub enum ReadRequest {
    /// Consult the caller-supplied gatekeeper before reading anything.
    ConsultGate,
    /// Read the monitored custom format at this position of the list.
    ReadCustom { index: usize },
    /// Read the PNG-encoded image format.
    ReadPng,
    /// Read and decode the platform-native raw image format.
    ReadRawImage,
    /// Read the file list format.
    ReadFileList,
    /// Read the HTML format.
    ReadHtml,
    /// Read the plain text format.
    ReadText,
    /// Read the file list only to look for a single path to attach to the
    /// image that was just extracted. Failures of this read are ignored.
    ReadFileListHint,
}

impl ReadRequest {
    /// Whether the configured size limit applies to this read.
    pub open spec fn spec_size_limited(&self) -> bool {
        match self {
            ReadRequest::ReadCustom { .. } => true,
            ReadRequest::ReadPng => true,
            ReadRequest::ReadRawImage => true,
            _ => false,
        }
    }

    /// Whether the configured size limit applies to this read: it gates
    /// images and custom formats, never HTML or plain text.
    pub fn size_limited(&self) -> (r: bool)
        ensures
            r == self.spec_size_limited(),
    {
        match self {
            ReadRequest::ReadCustom { .. } => true,
            ReadRequest::ReadPng => true,
            ReadRequest::ReadRawImage => true,
            _ => false,
        }
    }
}

/// The read that serves tier `i`.
pub open spec fn request_for_tier(n: int, i: int) -> ReadRequest
    recommends
        0 <= i < n + 5,
{
    if i < n {
        ReadRequest::ReadCustom { index: i as usize }
    } else if i == n {
        ReadRequest::ReadPng
    } else if i == n + 1 {
        ReadRequest::ReadRawImage
    } else if i == n + 2 {
        ReadRequest::ReadFileList
    } else if i == n + 3 {
        ReadRequest::ReadHtml
    } else {
        ReadRequest::ReadText
    }
}

/// Position of the resolver within one resolution cycle.
pub enum ResolvePhase {
    /// Waiting for the gatekeeper verdict.
    Gate,
    /// Waiting for the read of tier `idx`.
    Tier { idx: usize },
    /// An image was extracted; waiting for the file-list read that may
    /// yield a path to attach to it.
    ImageHint { png: bool, bytes: Vec<u8>, width: u32, height: u32 },
    /// The cycle is decided.
    Done { result: Resolution },
}

/// Mathematical model of the resolver's position.
pub enum PhaseModel {
    Gate,
    Tier { idx: int },
    ImageHint { png: bool, bytes: Seq<u8>, width: u32, height: u32 },
    Done { result: ResolutionModel },
}

impl View for ResolvePhase {
    type V = PhaseModel;

    open spec fn view(&self) -> PhaseModel {
        match self {
            ResolvePhase::Gate => PhaseModel::Gate,
            ResolvePhase::Tier { idx } => PhaseModel::Tier { idx: *idx as int },
            ResolvePhase::ImageHint { png, bytes, width, height } => PhaseModel::ImageHint {
                png: *png,
                bytes: bytes@,
                width: *width,
                height: *height,
            },
            ResolvePhase::Done { result } => PhaseModel::Done { result: result@ },
        }
    }
}

/// The first present tier at or after `i`, or the tier count if none is.
pub open spec fn next_present(cat: CatalogModel, i: int) -> int
    recommends
        0 <= i <= tier_count(cat),
    decreases tier_count(cat) - i,
{
    if i >= tier_count(cat) {
        tier_count(cat)
    } else if tier_present(cat, i) {
        i
    } else {
        next_present(cat, i + 1)
    }
}

/// The phase entered when the walk reaches position `i`: the first present
/// tier from there, or the end of the cycle.
pub open spec fn enter_tier_phase(cat: CatalogModel, i: int) -> PhaseModel {
    if next_present(cat, i) < tier_count(cat) {
        PhaseModel::Tier { idx: next_present(cat, i) }
    } else {
        PhaseModel::Done { result: end_resolution(cat) }
    }
}

/// The transition the resolver makes when a read outcome arrives.
pub open spec fn spec_step(
    cat: CatalogModel,
    customs: Seq<Seq<char>>,
    phase: PhaseModel,
    o: OutcomeModel,
) -> PhaseModel
    recommends
        customs.len() == cat.custom.len(),
{
    let n = customs.len() as int;
    match phase {
        PhaseModel::Tier { idx: i } => if outcome_is_failed(o) {
            PhaseModel::Done {
                result: ResolutionModel::Fail(ErrorModel::ReadError(failed_message(o))),
            }
        } else if !outcome_is_data(o) {
            enter_tier_phase(cat, i + 1)
        } else if i == n && cat.file_list {
            PhaseModel::ImageHint { png: true, bytes: o->Bytes_0, width: 0, height: 0 }
        } else if i == n + 1 && cat.file_list {
            PhaseModel::ImageHint {
                png: false,
                bytes: o->Image_bytes,
                width: o->Image_width,
                height: o->Image_height,
            }
        } else {
            PhaseModel::Done {
                result: ResolutionModel::Publish(body_at_tier(customs, i, o, None)),
            }
        },
        PhaseModel::ImageHint { png, bytes, width, height } => {
            let path = match o {
                OutcomeModel::Files(l) => if l.len() == 1 {
                    Some(l[0])
                } else {
                    None
                },
                _ => None,
            };
            PhaseModel::Done {
                result: ResolutionModel::Publish(
                    if png {
                        BodyModel::PngImage { bytes, path }
                    } else {
                        BodyModel::RawImage(RawImageModel { bytes, width, height, path })
                    },
                ),
            }
        },
        _ => phase,
    }
}

/// One resolution cycle, driven step by step: the platform driver performs
/// the read this machine requests and hands the outcome back, until the
/// cycle is decided.
pub struct Resolver {
    catalog: TierCatalog,
    customs: Vec<String>,
    phase: ResolvePhase,
}

/// Mathematical model of a [`Resolver`].
pub struct ResolverModel {
    pub catalog: CatalogModel,
    pub customs: Seq<Seq<char>>,
    pub phase: PhaseModel,
}

impl View for Resolver {
    type V = ResolverModel;

    closed spec fn view(&self) -> ResolverModel {
        ResolverModel {
            catalog: self.catalog@,
            customs: strs_view(self.customs@),
            phase: self.phase@,
        }
    }
}

impl Resolver {
    /// The resolver's structural invariant: the custom presence flags are
    /// parallel to the monitored names, a tier phase points at a present
    /// tier, and the hint phase only occurs while the file list format is
    /// advertised.
    pub open spec fn wf(&self) -> bool {
        &&& self@.catalog.custom.len() == self@.customs.len()
        &&& tier_count(self@.catalog) <= usize::MAX as int
        &&& match self@.phase {
            PhaseModel::Tier { idx } => 0 <= idx < tier_count(self@.catalog) && tier_present(
                self@.catalog,
                idx,
            ),
            PhaseModel::ImageHint { .. } => self@.catalog.file_list,
            _ => true,
        }
    }

    /// Starts a cycle for one snapshot. The gatekeeper is consulted first.
    pub fn new(catalog: TierCatalog, customs: Vec<String>) -> (r: Resolver)
        requires
            catalog.custom_present@.len() == customs@.len(),
            catalog.custom_present@.len() + 5 <= usize::MAX,
        ensures
            r.wf(),
            r@.catalog == catalog@,
            r@.customs == strs_view(customs@),
            r@.phase == PhaseModel::Gate,
    {
        Resolver { catalog, customs, phase: ResolvePhase::Gate }
    }

    /// Whether tier `j` is advertised.
    fn tier_present_at(&self, j: usize) -> (r: bool)
        requires
            self@.catalog.custom.len() == self@.customs.len(),
            0 <= j < tier_count(self@.catalog),
        ensures
            r == tier_present(self@.catalog, j as int),
    {
        let n = self.customs.len();
        if j < n {
            self.catalog.custom_present[j]
        } else if j == n {
            self.catalog.png
        } else if j == n + 1 {
            self.catalog.raw_image
        } else if j == n + 2 {
            self.catalog.file_list
        } else if j == n + 3 {
            self.catalog.html
        } else {
            self.catalog.text
        }
    }

    /// Moves to the first present tier at or after `from`, or ends the
    /// cycle if none is left.
    fn enter_tier(&mut self, from: usize)
        requires
            old(self)@.catalog.custom.len() == old(self)@.customs.len(),
            tier_count(old(self)@.catalog) <= usize::MAX as int,
            0 <= from <= tier_count(old(self)@.catalog),
        ensures
            final(self).wf(),
            final(self)@.catalog == old(self)@.catalog,
            final(self)@.customs == old(self)@.customs,
            final(self)@.phase == enter_tier_phase(old(self)@.catalog, from as int),
    {
        let ghost cat = self@.catalog;
        let total = self.customs.len() + 5;
        let mut j = from;
        while j < total && !self.tier_present_at(j)
            invariant
                self@.catalog == cat,
                self@.catalog.custom.len() == self@.customs.len(),
                total == tier_count(cat),
                from <= j <= total,
                next_present(cat, from as int) == next_present(cat, j as int),
            decreases total - j,
        {
            j = j + 1;
        }
        if j < total {
            assert(next_present(cat, from as int) == j as int);
            self.phase = ResolvePhase::Tier { idx: j };
        } else {
            assert(next_present(cat, from as int) == tier_count(cat));
            let present = self.any_tier_present();
            let result = if self.catalog.any_formats && !present {
                Resolution::Fail(ClipboardError::NoMatchingFormat)
            } else {
                Resolution::Skip
            };
            assert(result@ == end_resolution(cat));
            self.phase = ResolvePhase::Done { result };
        }
    }

    /// Whether any known tier is advertised.
    fn any_tier_present(&self) -> (r: bool)
        requires
            self@.catalog.custom.len() == self@.customs.len(),
            tier_count(self@.catalog) <= usize::MAX as int,
        ensures
            r == some_tier_present(self@.catalog),
    {
        let ghost cat = self@.catalog;
        let total = self.customs.len() + 5;
        let mut j: usize = 0;
        while j < total
            invariant
                self@.catalog == cat,
                self@.catalog.custom.len() == self@.customs.len(),
                total == tier_count(cat),
                0 <= j <= total,
                forall|k: int| 0 <= k < j ==> !tier_present(cat, k),
            decreases total - j,
        {
            if self.tier_present_at(j) {
                assert(tier_present(cat, j as int));
                return true;
            }
            j = j + 1;
        }
        false
    }

    /// Hands the gatekeeper verdict to the resolver. A veto ends the cycle with
    /// no result and no error; otherwise the priority walk begins.
    pub fn advance_gate(&mut self, allowed: bool)
        requires
            old(self).wf(),
            old(self)@.phase == PhaseModel::Gate,
        ensures
            final(self).wf(),
            final(self)@.catalog == old(self)@.catalog,
            final(self)@.customs == old(self)@.customs,
            final(self)@.phase == if allowed {
                enter_tier_phase(old(self)@.catalog, 0)
            } else {
                (PhaseModel::Done { result: ResolutionModel::Skip })
            },
    {
        if allowed {
            self.enter_tier(0);
        } else {
            self.phase = ResolvePhase::Done { result: Resolution::Skip };
        }
    }

    /// The read the resolver needs next, or nothing once the cycle is
    /// decided.
    pub fn request(&self) -> (r: Option<ReadRequest>)
        requires
            self.wf(),
        ensures
            match self@.phase {
                PhaseModel::Gate => r == Some(ReadRequest::ConsultGate),
                PhaseModel::Tier { idx } => {
                    let n = self@.customs.len() as int;
                    &&& r == Some(request_for_tier(n, idx))
                    &&& (r matches Some(ReadRequest::ReadCustom { index }) ==> idx == index && idx
                        < n)
                    &&& (r == Some(ReadRequest::ReadPng) ==> idx == n)
                    &&& (r == Some(ReadRequest::ReadRawImage) ==> idx == n + 1)
                    &&& (r == Some(ReadRequest::ReadFileList) ==> idx == n + 2)
                    &&& (r == Some(ReadRequest::ReadHtml) ==> idx == n + 3)
                    &&& (r == Some(ReadRequest::ReadText) ==> idx == n + 4)
                },
                PhaseModel::ImageHint { .. } => r == Some(ReadRequest::ReadFileListHint),
                PhaseModel::Done { .. } => r is None,
            },
    {
        match &self.phase {
            ResolvePhase::Gate => Some(ReadRequest::ConsultGate),
            ResolvePhase::Tier { idx } => {
                let n = self.customs.len();
                let i = *idx;
                if i < n {
                    Some(ReadRequest::ReadCustom { index: i })
                } else if i == n {
                    Some(ReadRequest::ReadPng)
                } else if i == n + 1 {
                    Some(ReadRequest::ReadRawImage)
                } else if i == n + 2 {
                    Some(ReadRequest::ReadFileList)
                } else if i == n + 3 {
                    Some(ReadRequest::ReadHtml)
                } else {
                    Some(ReadRequest::ReadText)
                }
            },
            ResolvePhase::ImageHint { .. } => Some(ReadRequest::ReadFileListHint),
            ResolvePhase::Done { .. } => None,
        }
    }

    /// Hands one read outcome to the resolver and takes its transition:
    /// a failed transfer decides the cycle with a read error, a soft
    /// outcome falls through to the next present tier, data decides the
    /// cycle — via the path-hint read when an image coincides with an
    /// advertised file list.
    pub fn advance(&mut self, outcome: ReadOutcome)
        requires
            old(self).wf(),
            old(self)@.phase matches PhaseModel::Tier { idx } ==> outcome_fits_tier(
                old(self)@.customs.len() as int,
                idx,
                outcome@,
            ),
            !(old(self)@.phase is Gate),
            !(old(self)@.phase is Done),
        ensures
            final(self).wf(),
            final(self)@.catalog == old(self)@.catalog,
            final(self)@.customs == old(self)@.customs,
            final(self)@.phase == spec_step(
                old(self)@.catalog,
                old(self)@.customs,
                old(self)@.phase,
                outcome@,
            ),
    {
        let n = self.customs.len();
        let mut phase = ResolvePhase::Gate;
        core::mem::swap(&mut phase, &mut self.phase);
        match phase {
            ResolvePhase::Tier { idx } => {
                match outcome {
                    ReadOutcome::Failed(m) => {
                        self.phase = ResolvePhase::Done {
                            result: Resolution::Fail(ClipboardError::ReadError(m)),
                        };
                    },
                    ReadOutcome::Bytes(b) => {
                        if b.len() == 0 {
                            self.enter_tier(idx + 1);
                        } else if idx < n {
                            let name = self.customs[idx].clone();
                            self.phase = ResolvePhase::Done {
                                result: Resolution::Publish(
                                    crate::body::Body::Custom { name, data: b },
                                ),
                            };
                        } else if self.catalog.file_list {
                            self.phase = ResolvePhase::ImageHint {
                                png: true,
                                bytes: b,
                                width: 0,
                                height: 0,
                            };
                        } else {
                            self.phase = ResolvePhase::Done {
                                result: Resolution::Publish(
                                    crate::body::Body::PngImage { bytes: b, path: None },
                                ),
                            };
                        }
                    },
                    ReadOutcome::Image { bytes, width, height } => {
                        if bytes.len() == 0 {
                            self.enter_tier(idx + 1);
                        } else if self.catalog.file_list {
                            self.phase = ResolvePhase::ImageHint { png: false, bytes, width, height };
                        } else {
                            self.phase = ResolvePhase::Done {
                                result: Resolution::Publish(
                                    crate::body::Body::RawImage(
                                        crate::body::RawImage { bytes, width, height, path: None },
                                    ),
                                ),
                            };
                        }
                    },
                    ReadOutcome::Files(l) => {
                        if l.len() == 0 {
                            self.enter_tier(idx + 1);
                        } else {
                            self.phase = ResolvePhase::Done {
                                result: Resolution::Publish(crate::body::Body::FileList(l)),
                            };
                        }
                    },
                    ReadOutcome::Text(t) => {
                        if t.as_str().is_empty() {
                            self.enter_tier(idx + 1);
                        } else if idx == n + 3 {
                            self.phase = ResolvePhase::Done {
                                result: Resolution::Publish(crate::body::Body::Html(t)),
                            };
                        } else {
                            self.phase = ResolvePhase::Done {
                                result: Resolution::Publish(crate::body::Body::PlainText(t)),
                            };
                        }
                    },
                    _ => {
                        self.enter_tier(idx + 1);
                    },
                }
            },
            ResolvePhase::ImageHint { png, bytes, width, height } => {
                let path: Option<String> = match outcome {
                    ReadOutcome::Files(mut l) => {
                        if l.len() == 1 {
                            let p = l.remove(0);
                            Some(p)
                        } else {
                            None
                        }
                    },
                    _ => None,
                };
                let body = if png {
                    crate::body::Body::PngImage { bytes, path }
                } else {
                    crate::body::Body::RawImage(
                        crate::body::RawImage { bytes, width, height, path },
                    )
                };
                self.phase = ResolvePhase::Done { result: Resolution::Publish(body) };
            },
            _ => {
                proof {
                    assert(false);
                }
            },
        }
    }

    /// Whether the cycle is decided.
    pub fn is_done(&self) -> (r: bool)
        ensures
            r == (self@.phase is Done),
    {
        match &self.phase {
            ResolvePhase::Done { .. } => true,
            _ => false,
        }
    }

    /// The decision of the cycle.
    pub fn into_result(self) -> (r: Resolution)
        requires
            self@.phase is Done,
        ensures
            self@.phase matches PhaseModel::Done { result } && r@ == result,
    {
        match self.phase {
            ResolvePhase::Done { result } => result,
            _ => {
                proof {
                    assert(false);
                }
                Resolution::Skip
            },
        }
    }
}

impl ReadOutcome {
    /// A structural copy of the outcome, equal to it in the model.
    pub fn duplicate(&self) -> (r: ReadOutcome)
        ensures
            r@ == self@,
    {
        match self {
            ReadOutcome::Bytes(b) => {
                let c = b.clone();
                proof {
                    assert(c@ =~= b@);
                }
                ReadOutcome::Bytes(c)
            },
            ReadOutcome::Image { bytes, width, height } => {
                let c = bytes.clone();
                proof {
                    assert(c@ =~= bytes@);
                }
                ReadOutcome::Image { bytes: c, width: *width, height: *height }
            },
            ReadOutcome::Files(l) => {
                let c = l.clone();
                proof {
                    assert(c@ =~= l@);
                    assert(strs_view(c@) =~= strs_view(l@));
                }
                ReadOutcome::Files(c)
            },
            ReadOutcome::Text(t) => ReadOutcome::Text(t.clone()),
            ReadOutcome::Empty => ReadOutcome::Empty,
            ReadOutcome::TooLarge => ReadOutcome::TooLarge,
            ReadOutcome::Unavailable => ReadOutcome::Unavailable,
            ReadOutcome::Failed(m) => ReadOutcome::Failed(m.clone()),
        }
    }
}

/// The first present tier is never before the position the walk reached.
pub proof fn lemma_next_present_bounds(cat: CatalogModel, i: int)
    requires
        0 <= i <= tier_count(cat),
    ensures
        i <= next_present(cat, i) <= tier_count(cat),
    decreases tier_count(cat) - i,
{
    if i < tier_count(cat) && !tier_present(cat, i) {
        lemma_next_present_bounds(cat, i + 1);
    }
}

/// Walking over absent tiers does not change the resolution: from any
/// position it equals the resolution from the first present tier, or the
/// end decision when none is left.
pub proof fn lemma_resolve_skip(cat: CatalogModel, customs: Seq<Seq<char>>, t: TableModel, i: int)
    requires
        0 <= i <= tier_count(cat),
    ensures
        spec_resolve_from(cat, customs, t, i) == if next_present(cat, i) < tier_count(cat) {
            spec_resolve_from(cat, customs, t, next_present(cat, i))
        } else {
            end_resolution(cat)
        },
    decreases tier_count(cat) - i,
{
    if i < tier_count(cat) && !tier_present(cat, i) {
        lemma_resolve_skip(cat, customs, t, i + 1);
    }
}

/// The resolution a resolver position still leads to, for a fixed outcome
/// table: the whole cycle is decided by the tiers at or after the position.
pub open spec fn phase_resolution(
    cat: CatalogModel,
    customs: Seq<Seq<char>>,
    t: TableModel,
    phase: PhaseModel,
) -> ResolutionModel {
    match phase {
        PhaseModel::Gate => spec_resolve_from(cat, customs, t, 0),
        PhaseModel::Tier { idx } => spec_resolve_from(cat, customs, t, idx),
        PhaseModel::ImageHint { png, bytes, width, height } => ResolutionModel::Publish(
            if png {
                BodyModel::PngImage { bytes, path: hint_path_model(cat, t.file_list) }
            } else {
                BodyModel::RawImage(
                    RawImageModel { bytes, width, height, path: hint_path_model(cat, t.file_list) },
                )
            },
        ),
        PhaseModel::Done { result } => result,
    }
}

/// Progress measure of the resolver: every transition decreases it.
pub open spec fn phase_measure(cat: CatalogModel, phase: PhaseModel) -> int {
    match phase {
        PhaseModel::Gate => 2 * tier_count(cat) + 4,
        PhaseModel::Tier { idx } => 2 * (tier_count(cat) - idx) + 2,
        PhaseModel::ImageHint { .. } => 1,
        PhaseModel::Done { .. } => 0,
    }
}

/// One resolver transition, fed the outcome the table holds for its
/// position, neither changes the resolution the position leads to nor
/// fails to progress.
pub proof fn lemma_step_preserves_resolution(
    cat: CatalogModel,
    customs: Seq<Seq<char>>,
    t: TableModel,
    phase: PhaseModel,
    o: OutcomeModel,
)
    requires
        customs.len() == cat.custom.len(),
        t.custom.len() == cat.custom.len(),
        match phase {
            PhaseModel::Tier { idx } => 0 <= idx < tier_count(cat) && tier_present(cat, idx) && o
                == table_outcome(t, cat.custom.len() as int, idx),
            PhaseModel::ImageHint { .. } => cat.file_list && o == t.file_list,
            _ => false,
        },
    ensures
        phase_resolution(cat, customs, t, spec_step(cat, customs, phase, o)) == phase_resolution(
            cat,
            customs,
            t,
            phase,
        ),
        phase_measure(cat, spec_step(cat, customs, phase, o)) < phase_measure(cat, phase),
{
    match phase {
        PhaseModel::Tier { idx } => {
            if !outcome_is_failed(o) && !outcome_is_data(o) {
                lemma_next_present_bounds(cat, idx + 1);
                lemma_resolve_skip(cat, customs, t, idx + 1);
            }
        },
        _ => {},
    }
}

/// Resolves one whole snapshot against a table of read outcomes, by
/// driving the [`Resolver`] through every read it requests. Returns
/// exactly the pure resolution of the snapshot.
pub fn resolve_catalog(
    catalog: TierCatalog,
    customs: Vec<String>,
    table: &OutcomeTable,
    gate_allowed: bool,
) -> (r: Resolution)
    requires
        catalog.custom_present@.len() == customs@.len(),
        catalog.custom_present@.len() + 5 <= usize::MAX,
        table@.custom.len() == customs@.len(),
        table_fits(catalog@, table@),
    ensures
        r@ == spec_resolve(catalog@, strs_view(customs@), table@, gate_allowed),
{
    let ghost cat = catalog@;
    let ghost cv = strs_view(customs@);
    let ghost tm = table@;
    let n = customs.len();
    let mut m = Resolver::new(catalog, customs);
    m.advance_gate(gate_allowed);
    proof {
        if gate_allowed {
            lemma_resolve_skip(cat, cv, tm, 0);
        }
    }
    while !m.is_done()
        invariant
            m.wf(),
            m@.catalog == cat,
            m@.customs == cv,
            n == cv.len(),
            tm == table@,
            tm.custom.len() == n,
            table_fits(cat, tm),
            !(m@.phase is Gate),
            phase_resolution(cat, cv, tm, m@.phase) == spec_resolve(cat, cv, tm, gate_allowed),
        decreases phase_measure(cat, m@.phase),
    {
        let req = m.request();
        let ghost old_phase = m@.phase;
        let outcome = match req {
            Some(ReadRequest::ReadCustom { index }) => {
                proof {
                    assert(old_phase matches PhaseModel::Tier { idx } && index == idx && idx < n);
                }
                table.custom[index].duplicate()
            },
            Some(ReadRequest::ReadPng) => table.png.duplicate(),
            Some(ReadRequest::ReadRawImage) => table.raw_image.duplicate(),
            Some(ReadRequest::ReadFileList) => table.file_list.duplicate(),
            Some(ReadRequest::ReadHtml) => table.html.duplicate(),
            Some(ReadRequest::ReadText) => table.text.duplicate(),
            Some(ReadRequest::ReadFileListHint) => table.file_list.duplicate(),
            _ => {
                proof {
                    assert(false);
                }
                ReadOutcome::Empty
            },
        };
        proof {
            match old_phase {
                PhaseModel::Tier { idx } => {
                    assert(outcome@ == table_outcome(tm, n as int, idx));
                    assert(outcome_fits_tier(n as int, idx, table_outcome(tm, n as int, idx)));
                },
                _ => {},
            }
        }
        m.advance(outcome);
        proof {
            let o = match old_phase {
                PhaseModel::Tier { idx } => table_outcome(tm, n as int, idx),
                _ => tm.file_list,
            };
            lemma_step_preserves_resolution(cat, cv, tm, old_phase, o);
        }
    }
    let r = m.into_result();
    r
}

} // verus!
