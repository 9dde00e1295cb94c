//! The typed in-memory model of the two KRDS file families.
//!
//! Every entity is a transient value: fully constructed on decode,
//! fully consumed on encode, owned tree-shaped by its file.  Fields
//! whose purpose the format does not document are kept as structurally
//! typed, semantically opaque slots and preserved verbatim.
//!
//! On-disk doubles are held as [`DoubleBits`], the raw IEEE-754 bit
//! pattern: the codec never interprets them as numbers, so round trips
//! stay byte-exact.

use vstd::prelude::*;

verus! {

/// A 64-bit IEEE-754 double held as its raw bit pattern.  The codec
/// treats it as an opaque slot and preserves it verbatim.
#[derive(Clone, Copy, Debug, Default, PartialEq, Eq)]
pub struct DoubleBits(pub u64);

impl DeepView for DoubleBits {
    type V = DoubleBits;

    open spec fn deep_view(&self) -> DoubleBits {
        *self
    }
}

/// Timer data file (`.yjf` and `.azw3f`): reading statistics such as
/// words per minute and percent of book read.  Every field is
/// independently optional; presence mirrors what the source device
/// chose to write.
#[derive(Clone, Debug, Default, PartialEq)]
pub struct TimerDataFile {
    pub timer_model: Option<TimerModel>,
    pub fpr: Option<FPR>,
    pub book_info_store: Option<BookInfoStore>,
    pub page_history_store: Option<Vec<PHRWrapper>>,
    pub whisperstore_migration_status: Option<WhisperstoreMigrationStatus>,
    pub lpr: Option<LPR>,
}

/// Reader data file (`.yjr` and `.azw3r`): the user's font
/// configuration and the annotations made in the document
/// (handwritten notes, sticky notes, typed notes, highlights and
/// bookmarks).  Every field is independently optional.
#[derive(Clone, Debug, Default, PartialEq)]
pub struct ReaderDataFile {
    pub font_preferences: Option<FontPreferences>,
    pub sync_lpr: Option<bool>,
    pub nis_info_data: Option<String>,
    pub annotation_cache: Option<Vec<(NoteType, IntervalTree<Note>)>>,
    pub apnx_key: Option<APNXKey>,
    pub language_store: Option<LanguageStore>,
    pub reader_metrics: Option<Vec<(String, String)>>,
}

/// Opaque record of unknown purpose; preserved verbatim.
#[derive(Clone, Debug, Default, PartialEq)]
pub struct FPR(pub String, pub i64, pub i64, pub String, pub String);

/// Opaque record of unknown purpose; preserved verbatim.
#[derive(Clone, Debug, Default, PartialEq)]
pub struct LPR(pub i8, pub String, pub i64);

/// A pair of migration flags whose semantics are undocumented.
#[derive(Clone, Copy, Debug, Default, PartialEq, Eq)]
pub struct WhisperstoreMigrationStatus(pub bool, pub bool);

/// Calculator data for timer data files, used to derive reading speed
/// and estimated time left.  Fields: version, total time reading (ms),
/// total words read, total percent of book read, calculator data.
#[derive(Clone, Debug, Default, PartialEq)]
pub struct TimerModel(pub i64, pub i64, pub i64, pub DoubleBits, pub TACWrapper);

/// How much the user has read: (number of words, percent read).
#[derive(Clone, Copy, Debug, Default, PartialEq, Eq)]
pub struct BookInfoStore(pub i64, pub DoubleBits);

/// Tag-carrying wrapper around a [`PageHistoryRecord`]; transparent to
/// the logical model.
#[derive(Clone, Debug, Default, PartialEq)]
pub struct PHRWrapper(pub PageHistoryRecord);

/// A record of when the user read a page: (position, time).
#[derive(Clone, Debug, Default, PartialEq)]
pub struct PageHistoryRecord(pub String, pub i64);

/// Tag-carrying wrapper around a [`TimerAverageCalculator`];
/// transparent to the logical model.
#[derive(Clone, Debug, Default, PartialEq)]
pub struct TACWrapper(pub TimerAverageCalculator);

/// Statistical distribution storage for the timer model: two counters,
/// the normal-distribution samples and the outlier samples.
#[derive(Clone, Debug, Default, PartialEq)]
pub struct TimerAverageCalculator(
    pub i32,
    pub i32,
    pub Vec<TADNWrapper>,
    pub Vec<TAOWrapper>,
);

/// Tag-carrying wrapper around a [`TimerAverageDistributionNormal`];
/// transparent to the logical model.
#[derive(Clone, Copy, Debug, Default, PartialEq, Eq)]
pub struct TADNWrapper(pub TimerAverageDistributionNormal);

/// Normal distribution sample for reading speed: (sample count, sum of
/// samples in words per minute, second statistic).
#[derive(Clone, Copy, Debug, Default, PartialEq, Eq)]
pub struct TimerAverageDistributionNormal(pub i64, pub DoubleBits, pub DoubleBits);

/// Tag-carrying wrapper around a [`TimerAverageOutliers`]; transparent
/// to the logical model.
#[derive(Clone, Copy, Debug, Default, PartialEq, Eq)]
pub struct TAOWrapper(pub TimerAverageOutliers);

/// Outlier sample for reading speed data.
#[derive(Clone, Copy, Debug, Default, PartialEq, Eq)]
pub struct TimerAverageOutliers(pub i32, pub DoubleBits, pub DoubleBits);

/// Font preferences used while reading: a fixed-order tuple of 16
/// settings.  Field 0 is the selected font, field 2 the font size,
/// field 9 the bold level; the remaining slots are style and layout
/// knobs known only by position and preserved verbatim.
#[derive(Clone, Debug, PartialEq)]
pub struct FontPreferences(
    pub String,
    pub i32,
    pub i32,
    pub i32,
    pub i32,
    pub i32,
    pub i32,
    pub i32,
    pub i32,
    pub i32,
    pub String,
    pub i32,
    pub String,
    pub bool,
    pub String,
    pub i32,
);

/// Key of an auxiliary page-number index (APNX) associated with a
/// book: a string key, a type string, a flag, a sequence of integers
/// and three integers, with a trailing string.  Field semantics beyond
/// position are unknown; preserved verbatim.
#[derive(Clone, Debug, PartialEq)]
pub struct APNXKey(
    pub String,
    pub String,
    pub bool,
    pub Vec<i32>,
    pub i32,
    pub i32,
    pub i32,
    pub String,
);

/// Payload shared by all annotation variants: start position, end
/// position, creation timestamp, last-modified timestamp, a template
/// string, and an optional trailing payload (drawing reference of a
/// handwritten note, or plaintext of a typed note; absent for
/// highlights and bookmarks).
#[derive(Clone, Debug, PartialEq)]
pub struct AnnotationData(
    pub String,
    pub String,
    pub i64,
    pub i64,
    pub String,
    pub Option<String>,
);

/// The type of a note, used as the key of the annotation cache.
/// Encoded as a 32-bit integer under a closed, non-contiguous mapping;
/// any other integer fails decode.
#[derive(Clone, Debug, Eq, PartialEq, Hash, Copy)]
pub enum NoteType {
    Bookmark,
    Highlight,
    Typed,
    Handwritten,
    Sticky,
}

/// The closed integer mapping of [`NoteType`]: Bookmark is 0,
/// Highlight 1, Typed 2, Handwritten 10, Sticky 11.
pub open spec fn note_type_code(t: NoteType) -> i32 {
    match t {
        NoteType::Bookmark => 0,
        NoteType::Highlight => 1,
        NoteType::Typed => 2,
        NoteType::Handwritten => 10,
        NoteType::Sticky => 11,
    }
}

/// The partial inverse of [`note_type_code`]: defined on exactly
/// 0, 1, 2, 10 and 11.
pub open spec fn note_type_from_code(value: i32) -> Result<NoteType, ()> {
    if value == 0 {
        Ok(NoteType::Bookmark)
    } else if value == 1 {
        Ok(NoteType::Highlight)
    } else if value == 2 {
        Ok(NoteType::Typed)
    } else if value == 10 {
        Ok(NoteType::Handwritten)
    } else if value == 11 {
        Ok(NoteType::Sticky)
    } else {
        Err(())
    }
}

impl NoteType {
    /// Maps an integer to its note type; fails on any integer outside
    /// the closed set {0, 1, 2, 10, 11}.
    pub fn try_from(value: i32) -> (r: Result<NoteType, ()>)
        ensures
            r == note_type_from_code(value),
    {
        match value {
            0 => Ok(NoteType::Bookmark),
            1 => Ok(NoteType::Highlight),
            2 => Ok(NoteType::Typed),
            10 => Ok(NoteType::Handwritten),
            11 => Ok(NoteType::Sticky),
            _ => Err(()),
        }
    }

    /// The fixed integer of this note type.
    pub fn to_i32(self) -> (r: i32)
        ensures
            r == note_type_code(self),
    {
        match self {
            NoteType::Bookmark => 0,
            NoteType::Highlight => 1,
            NoteType::Typed => 2,
            NoteType::Handwritten => 10,
            NoteType::Sticky => 11,
        }
    }
}

/// The closed mapping of note types is a bijection between the enum
/// and the integer set {0, 1, 2, 10, 11}: decoding an encoded type
/// gives the type back.
pub broadcast proof fn lemma_note_type_code_round_trip(t: NoteType)
    ensures
        #[trigger] note_type_from_code(note_type_code(t)) == Ok::<NoteType, ()>(t),
{
}

/// Wrapper under which the annotation sequence is stored in reader
/// data files.  Despite the on-disk name there is no tree structure:
/// it is an append-ordered list, never sorted or deduplicated.
#[derive(Clone, Debug, PartialEq)]
pub struct IntervalTree<T>(pub Vec<T>);

impl<T: DeepView> DeepView for IntervalTree<T> {
    type V = Seq<T::V>;

    open spec fn deep_view(&self) -> Seq<T::V> {
        self.0.deep_view()
    }
}

/// A document annotation: one of five variants dispatched by a string
/// tag on disk, each wrapping the same [`AnnotationData`] payload.
#[derive(Clone, Debug, PartialEq)]
pub enum Note {
    Bookmark(AnnotationData),
    Highlight(AnnotationData),
    Typed(AnnotationData),
    Handwritten(AnnotationData),
    Sticky(AnnotationData),
}

/// The system language of the device that wrote the file, and an
/// integer of unknown purpose.
#[derive(Clone, Debug, PartialEq)]
pub struct LanguageStore(pub String, pub i32);

/// Whether the book was launched before on the device that wrote the
/// reader data file.
#[derive(Clone, Debug, PartialEq)]
pub struct ReaderMetrics {
    pub booklaunchedbefore: String,
}

/// Mathematical shape of [`FPR`].
pub struct FprView(pub Seq<char>, pub i64, pub i64, pub Seq<char>, pub Seq<char>);

/// Mathematical shape of [`LPR`].
pub struct LprView(pub i8, pub Seq<char>, pub i64);

/// Mathematical shape of [`PageHistoryRecord`].
pub struct PageHistoryView(pub Seq<char>, pub i64);

/// Mathematical shape of [`TimerAverageCalculator`].
pub struct TacView(
    pub i32,
    pub i32,
    pub Seq<TimerAverageDistributionNormal>,
    pub Seq<TimerAverageOutliers>,
);

/// Mathematical shape of [`TimerModel`].
pub struct TimerModelView(pub i64, pub i64, pub i64, pub DoubleBits, pub TacView);

/// Mathematical shape of [`FontPreferences`].
pub struct FontPreferencesView(
    pub Seq<char>,
    pub i32,
    pub i32,
    pub i32,
    pub i32,
    pub i32,
    pub i32,
    pub i32,
    pub i32,
    pub i32,
    pub Seq<char>,
    pub i32,
    pub Seq<char>,
    pub bool,
    pub Seq<char>,
    pub i32,
);

/// Mathematical shape of [`APNXKey`].
pub struct ApnxKeyView(
    pub Seq<char>,
    pub Seq<char>,
    pub bool,
    pub Seq<i32>,
    pub i32,
    pub i32,
    pub i32,
    pub Seq<char>,
);

/// Mathematical shape of [`AnnotationData`].
pub struct AnnotationDataView(
    pub Seq<char>,
    pub Seq<char>,
    pub i64,
    pub i64,
    pub Seq<char>,
    pub Option<Seq<char>>,
);

/// Mathematical shape of [`Note`].
pub enum NoteView {
    Bookmark(AnnotationDataView),
    Highlight(AnnotationDataView),
    Typed(AnnotationDataView),
    Handwritten(AnnotationDataView),
    Sticky(AnnotationDataView),
}

/// Mathematical shape of [`LanguageStore`].
pub struct LanguageStoreView(pub Seq<char>, pub i32);

/// Mathematical shape of [`ReaderDataFile`].
pub struct ReaderView {
    pub font_preferences: Option<FontPreferencesView>,
    pub sync_lpr: Option<bool>,
    pub nis_info_data: Option<Seq<char>>,
    pub annotation_cache: Option<Seq<(NoteType, Seq<NoteView>)>>,
    pub apnx_key: Option<ApnxKeyView>,
    pub language_store: Option<LanguageStoreView>,
    pub reader_metrics: Option<Seq<(Seq<char>, Seq<char>)>>,
}

/// Mathematical shape of [`TimerDataFile`].
pub struct TimerView {
    pub timer_model: Option<TimerModelView>,
    pub fpr: Option<FprView>,
    pub book_info_store: Option<BookInfoStore>,
    pub page_history_store: Option<Seq<PageHistoryView>>,
    pub whisperstore_migration_status: Option<WhisperstoreMigrationStatus>,
    pub lpr: Option<LprView>,
}

impl DeepView for FPR {
    type V = FprView;

    open spec fn deep_view(&self) -> FprView {
        FprView(self.0@, self.1, self.2, self.3@, self.4@)
    }
}

impl DeepView for LPR {
    type V = LprView;

    open spec fn deep_view(&self) -> LprView {
        LprView(self.0, self.1@, self.2)
    }
}

impl DeepView for WhisperstoreMigrationStatus {
    type V = WhisperstoreMigrationStatus;

    open spec fn deep_view(&self) -> WhisperstoreMigrationStatus {
        *self
    }
}

impl DeepView for BookInfoStore {
    type V = BookInfoStore;

    open spec fn deep_view(&self) -> BookInfoStore {
        *self
    }
}

impl DeepView for PageHistoryRecord {
    type V = PageHistoryView;

    open spec fn deep_view(&self) -> PageHistoryView {
        PageHistoryView(self.0@, self.1)
    }
}

impl DeepView for PHRWrapper {
    type V = PageHistoryView;

    open spec fn deep_view(&self) -> PageHistoryView {
        self.0.deep_view()
    }
}

impl DeepView for TimerAverageDistributionNormal {
    type V = TimerAverageDistributionNormal;

    open spec fn deep_view(&self) -> TimerAverageDistributionNormal {
        *self
    }
}

impl DeepView for TAOWrapper {
    type V = TimerAverageOutliers;

    open spec fn deep_view(&self) -> TimerAverageOutliers {
        self.0
    }
}

impl DeepView for TADNWrapper {
    type V = TimerAverageDistributionNormal;

    open spec fn deep_view(&self) -> TimerAverageDistributionNormal {
        self.0
    }
}

impl DeepView for TimerAverageOutliers {
    type V = TimerAverageOutliers;

    open spec fn deep_view(&self) -> TimerAverageOutliers {
        *self
    }
}

impl DeepView for TimerAverageCalculator {
    type V = TacView;

    open spec fn deep_view(&self) -> TacView {
        TacView(self.0, self.1, self.2.deep_view(), self.3.deep_view())
    }
}

impl DeepView for TACWrapper {
    type V = TacView;

    open spec fn deep_view(&self) -> TacView {
        self.0.deep_view()
    }
}

impl DeepView for TimerModel {
    type V = TimerModelView;

    open spec fn deep_view(&self) -> TimerModelView {
        TimerModelView(self.0, self.1, self.2, self.3, self.4.deep_view())
    }
}

impl DeepView for FontPreferences {
    type V = FontPreferencesView;

    open spec fn deep_view(&self) -> FontPreferencesView {
        FontPreferencesView(
            self.0@,
            self.1,
            self.2,
            self.3,
            self.4,
            self.5,
            self.6,
            self.7,
            self.8,
            self.9,
            self.10@,
            self.11,
            self.12@,
            self.13,
            self.14@,
            self.15,
        )
    }
}

impl DeepView for APNXKey {
    type V = ApnxKeyView;

    open spec fn deep_view(&self) -> ApnxKeyView {
        ApnxKeyView(
            self.0@,
            self.1@,
            self.2,
            self.3@,
            self.4,
            self.5,
            self.6,
            self.7@,
        )
    }
}

impl DeepView for AnnotationData {
    type V = AnnotationDataView;

    open spec fn deep_view(&self) -> AnnotationDataView {
        AnnotationDataView(
            self.0@,
            self.1@,
            self.2,
            self.3,
            self.4@,
            match self.5 {
                Some(ref s) => Some(s@),
                None => None,
            },
        )
    }
}

impl DeepView for NoteType {
    type V = NoteType;

    open spec fn deep_view(&self) -> NoteType {
        *self
    }
}

impl DeepView for Note {
    type V = NoteView;

    open spec fn deep_view(&self) -> NoteView {
        match self {
            Note::Bookmark(d) => NoteView::Bookmark(d.deep_view()),
            Note::Highlight(d) => NoteView::Highlight(d.deep_view()),
            Note::Typed(d) => NoteView::Typed(d.deep_view()),
            Note::Handwritten(d) => NoteView::Handwritten(d.deep_view()),
            Note::Sticky(d) => NoteView::Sticky(d.deep_view()),
        }
    }
}

impl DeepView for LanguageStore {
    type V = LanguageStoreView;

    open spec fn deep_view(&self) -> LanguageStoreView {
        LanguageStoreView(self.0@, self.1)
    }
}

impl DeepView for ReaderMetrics {
    type V = Seq<char>;

    open spec fn deep_view(&self) -> Seq<char> {
        self.booklaunchedbefore@
    }
}

impl DeepView for ReaderDataFile {
    type V = ReaderView;

    open spec fn deep_view(&self) -> ReaderView {
        ReaderView {
            font_preferences: self.font_preferences.deep_view(),
            sync_lpr: self.sync_lpr,
            nis_info_data: self.nis_info_data.deep_view(),
            annotation_cache: self.annotation_cache.deep_view(),
            apnx_key: self.apnx_key.deep_view(),
            language_store: self.language_store.deep_view(),
            reader_metrics: self.reader_metrics.deep_view(),
        }
    }
}

impl DeepView for TimerDataFile {
    type V = TimerView;

    open spec fn deep_view(&self) -> TimerView {
        TimerView {
            timer_model: self.timer_model.deep_view(),
            fpr: self.fpr.deep_view(),
            book_info_store: self.book_info_store.deep_view(),
            page_history_store: self.page_history_store.deep_view(),
            whisperstore_migration_status: self.whisperstore_migration_status.deep_view(),
            lpr: self.lpr.deep_view(),
        }
    }
}

} // verus!
