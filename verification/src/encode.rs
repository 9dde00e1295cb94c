//! Encoding: from the typed model to the transport value tree.
//!
//! Encoding is total over the model: every model value encodes.  Each
//! executable encoder is pinned to a specification function that builds
//! the abstract value tree directly; field order, tags and the skipping
//! of absent optional fields are all fixed by those functions.

use vstd::prelude::*;

use crate::model::APNXKey;
use crate::model::AnnotationData;
use crate::model::AnnotationDataView;
use crate::model::ApnxKeyView;
use crate::model::BookInfoStore;
use crate::model::FPR;
use crate::model::FontPreferences;
use crate::model::FontPreferencesView;
use crate::model::FprView;
use crate::model::IntervalTree;
use crate::model::LPR;
use crate::model::LanguageStore;
use crate::model::LanguageStoreView;
use crate::model::LprView;
use crate::model::Note;
use crate::model::NoteType;
use crate::model::NoteView;
use crate::model::PHRWrapper;
use crate::model::PageHistoryRecord;
use crate::model::PageHistoryView;
use crate::model::ReaderDataFile;
use crate::model::ReaderView;
use crate::model::TacView;
use crate::model::TimerAverageCalculator;
use crate::model::TimerAverageDistributionNormal;
use crate::model::TimerAverageOutliers;
use crate::model::TimerDataFile;
use crate::model::TimerModel;
use crate::model::TimerModelView;
use crate::model::TimerView;
use crate::model::WhisperstoreMigrationStatus;
use crate::model::note_type_code;
use crate::value::Value;
use crate::value::ValueView;
use crate::value::entries_view;
use crate::value::lemma_entries_view;
use crate::value::lemma_entries_view_push;
use crate::value::lemma_named_view;
use crate::value::lemma_named_view_push;
use crate::value::lemma_values_view;
use crate::value::lemma_values_view_push;
use crate::value::named_view;
use crate::value::values_view;

verus! {

broadcast use {
    lemma_values_view,
    lemma_named_view,
    lemma_entries_view,
    lemma_values_view_push,
    lemma_named_view_push,
    lemma_entries_view_push,
};

/// Abstract encoding of a [`LanguageStore`].
pub open spec fn enc_language(l: LanguageStoreView) -> ValueView {
    ValueView::Tuple(seq![ValueView::Str(l.0), ValueView::Int(l.1)])
}

/// Abstract encoding of an [`FPR`].
pub open spec fn enc_fpr(f: FprView) -> ValueView {
    ValueView::Tuple(
        seq![
            ValueView::Str(f.0),
            ValueView::Long(f.1),
            ValueView::Long(f.2),
            ValueView::Str(f.3),
            ValueView::Str(f.4),
        ],
    )
}

/// Abstract encoding of an [`LPR`]; its first field is the only
/// 8-bit slot of the format.
pub open spec fn enc_lpr(l: LprView) -> ValueView {
    ValueView::Tuple(
        seq![ValueView::Byte(l.0), ValueView::Str(l.1), ValueView::Long(l.2)],
    )
}

/// Abstract encoding of a [`WhisperstoreMigrationStatus`].
pub open spec fn enc_whisper(w: WhisperstoreMigrationStatus) -> ValueView {
    ValueView::Tuple(seq![ValueView::Bool(w.0), ValueView::Bool(w.1)])
}

/// Abstract encoding of a [`BookInfoStore`].
pub open spec fn enc_book_info(b: BookInfoStore) -> ValueView {
    ValueView::Tuple(seq![ValueView::Long(b.0), ValueView::Double(b.1.0)])
}

/// Abstract encoding of a [`PageHistoryRecord`], wrapped under its
/// on-disk tag.
pub open spec fn enc_phr(p: PageHistoryView) -> ValueView {
    ValueView::Tagged(
        "page.history.record"@,
        seq![ValueView::Str(p.0), ValueView::Long(p.1)],
    )
}

/// Abstract encoding of the page-history store: the records in model
/// order.
pub open spec fn enc_page_history(s: Seq<PageHistoryView>) -> ValueView {
    ValueView::Tuple(s.map_values(|p: PageHistoryView| enc_phr(p)))
}

/// Abstract encoding of a normal-distribution sample, wrapped under
/// its on-disk tag.
pub open spec fn enc_tadn(t: TimerAverageDistributionNormal) -> ValueView {
    ValueView::Tagged(
        "timer.average.calculator.distribution.normal"@,
        seq![ValueView::Long(t.0), ValueView::Double(t.1.0), ValueView::Double(t.2.0)],
    )
}

/// Abstract encoding of an outlier sample, wrapped under its on-disk
/// tag.
pub open spec fn enc_tao(t: TimerAverageOutliers) -> ValueView {
    ValueView::Tagged(
        "timer.average.calculator.outliers"@,
        seq![ValueView::Int(t.0), ValueView::Double(t.1.0), ValueView::Double(t.2.0)],
    )
}

/// Abstract encoding of a [`TimerAverageCalculator`], wrapped under
/// its on-disk tag.
pub open spec fn enc_tac(c: TacView) -> ValueView {
    ValueView::Tagged(
        "timer.average.calculator"@,
        seq![
            ValueView::Int(c.0),
            ValueView::Int(c.1),
            ValueView::Tuple(c.2.map_values(|t: TimerAverageDistributionNormal| enc_tadn(t))),
            ValueView::Tuple(c.3.map_values(|t: TimerAverageOutliers| enc_tao(t))),
        ],
    )
}

/// Abstract encoding of a [`TimerModel`].
pub open spec fn enc_timer_model(m: TimerModelView) -> ValueView {
    ValueView::Tuple(
        seq![
            ValueView::Long(m.0),
            ValueView::Long(m.1),
            ValueView::Long(m.2),
            ValueView::Double(m.3.0),
            enc_tac(m.4),
        ],
    )
}

/// Abstract encoding of [`FontPreferences`]: its 16 fields in fixed
/// order.
pub open spec fn enc_font(f: FontPreferencesView) -> ValueView {
    ValueView::Tuple(
        seq![
            ValueView::Str(f.0),
            ValueView::Int(f.1),
            ValueView::Int(f.2),
            ValueView::Int(f.3),
            ValueView::Int(f.4),
            ValueView::Int(f.5),
            ValueView::Int(f.6),
            ValueView::Int(f.7),
            ValueView::Int(f.8),
            ValueView::Int(f.9),
            ValueView::Str(f.10),
            ValueView::Int(f.11),
            ValueView::Str(f.12),
            ValueView::Bool(f.13),
            ValueView::Str(f.14),
            ValueView::Int(f.15),
        ],
    )
}

/// Abstract encoding of a sequence of 32-bit integers as a positional
/// record.
pub open spec fn enc_int_seq(s: Seq<i32>) -> ValueView {
    ValueView::Tuple(s.map_values(|n: i32| ValueView::Int(n)))
}

/// Abstract encoding of an [`APNXKey`]: its 8 fields in fixed order.
pub open spec fn enc_apnx(k: ApnxKeyView) -> ValueView {
    ValueView::Tuple(
        seq![
            ValueView::Str(k.0),
            ValueView::Str(k.1),
            ValueView::Bool(k.2),
            enc_int_seq(k.3),
            ValueView::Int(k.4),
            ValueView::Int(k.5),
            ValueView::Int(k.6),
            ValueView::Str(k.7),
        ],
    )
}

/// The positional fields of an annotation payload.  The optional
/// trailing payload is written only when `with_payload` holds and the
/// model carries it; it is never written as an explicit empty value.
pub open spec fn enc_annotation_fields(d: AnnotationDataView, with_payload: bool) -> Seq<
    ValueView,
> {
    let base = seq![
        ValueView::Str(d.0),
        ValueView::Str(d.1),
        ValueView::Long(d.2),
        ValueView::Long(d.3),
        ValueView::Str(d.4),
    ];
    if with_payload && d.5 is Some {
        base.push(ValueView::Str(d.5->0))
    } else {
        base
    }
}

/// The annotation payload of a note.
pub open spec fn note_data(n: NoteView) -> AnnotationDataView {
    match n {
        NoteView::Bookmark(d) => d,
        NoteView::Highlight(d) => d,
        NoteView::Typed(d) => d,
        NoteView::Handwritten(d) => d,
        NoteView::Sticky(d) => d,
    }
}

/// Whether a note variant carries the trailing payload field on disk.
/// Bookmarks and highlights never do.
pub open spec fn note_with_payload(n: NoteView) -> bool {
    match n {
        NoteView::Bookmark(_) => false,
        NoteView::Highlight(_) => false,
        NoteView::Typed(_) => true,
        NoteView::Handwritten(_) => true,
        NoteView::Sticky(_) => true,
    }
}

/// The closed dispatch tag of a note variant.
pub open spec fn note_tag(n: NoteView) -> Seq<char> {
    match n {
        NoteView::Bookmark(_) => "annotation.personal.bookmark"@,
        NoteView::Highlight(_) => "annotation.personal.highlight"@,
        NoteView::Typed(_) => "annotation.personal.note"@,
        NoteView::Handwritten(_) => "annotation.personal.handwritten_note"@,
        NoteView::Sticky(_) => "annotation.personal.sticky_note"@,
    }
}

/// Abstract encoding of a [`Note`]: its payload fields under its
/// variant tag.
pub open spec fn enc_note(n: NoteView) -> ValueView {
    ValueView::Tagged(note_tag(n), enc_annotation_fields(note_data(n), note_with_payload(n)))
}

/// Abstract encoding of an annotation sequence under the interval-tree
/// wrapper tag, in model order: never sorted, never deduplicated.
pub open spec fn enc_tree(notes: Seq<NoteView>) -> ValueView {
    ValueView::Tagged("saved.avl.interval.tree"@, notes.map_values(|n: NoteView| enc_note(n)))
}

/// Abstract encoding of the annotation cache: one mapping entry per
/// note type, in model order.
pub open spec fn enc_cache(entries: Seq<(NoteType, Seq<NoteView>)>) -> ValueView {
    ValueView::Mapping(
        entries.map_values(
            |e: (NoteType, Seq<NoteView>)|
                (ValueView::Int(note_type_code(e.0)), enc_tree(e.1)),
        ),
    )
}

/// Abstract encoding of the reader metrics as a named record of
/// string values, in model order.
pub open spec fn enc_metrics(pairs: Seq<(Seq<char>, Seq<char>)>) -> ValueView {
    ValueView::Named(
        pairs.map_values(|p: (Seq<char>, Seq<char>)| (p.0, ValueView::Str(p.1))),
    )
}

/// The named-record entry of one optional top-level field: nothing at
/// all when the field is unset.
pub open spec fn opt_entry(name: Seq<char>, o: Option<ValueView>) -> Seq<(Seq<char>, ValueView)> {
    match o {
        Some(v) => seq![(name, v)],
        None => seq![],
    }
}

/// The named fields of an encoded reader data file, in declared order,
/// absent fields skipped.
pub open spec fn enc_reader_fields(m: ReaderView) -> Seq<(Seq<char>, ValueView)> {
    opt_entry(
        "font.prefs"@,
        match m.font_preferences {
            Some(f) => Some(enc_font(f)),
            None => None,
        },
    ) + opt_entry(
        "sync_lpr"@,
        match m.sync_lpr {
            Some(b) => Some(ValueView::Bool(b)),
            None => None,
        },
    ) + opt_entry(
        "next.in.series.info.data"@,
        match m.nis_info_data {
            Some(s) => Some(ValueView::Str(s)),
            None => None,
        },
    ) + opt_entry(
        "annotation.cache.object"@,
        match m.annotation_cache {
            Some(c) => Some(enc_cache(c)),
            None => None,
        },
    ) + opt_entry(
        "apnx.key"@,
        match m.apnx_key {
            Some(k) => Some(enc_apnx(k)),
            None => None,
        },
    ) + opt_entry(
        "language.store"@,
        match m.language_store {
            Some(l) => Some(enc_language(l)),
            None => None,
        },
    ) + opt_entry(
        "ReaderMetrics"@,
        match m.reader_metrics {
            Some(p) => Some(enc_metrics(p)),
            None => None,
        },
    )
}

/// Abstract encoding of a reader data file.
pub open spec fn enc_reader(m: ReaderView) -> ValueView {
    ValueView::Named(enc_reader_fields(m))
}

/// The named fields of an encoded timer data file, in declared order,
/// absent fields skipped.
pub open spec fn enc_timer_fields(m: TimerView) -> Seq<(Seq<char>, ValueView)> {
    opt_entry(
        "timer.model"@,
        match m.timer_model {
            Some(t) => Some(enc_timer_model(t)),
            None => None,
        },
    ) + opt_entry(
        "fpr"@,
        match m.fpr {
            Some(f) => Some(enc_fpr(f)),
            None => None,
        },
    ) + opt_entry(
        "book.info.store"@,
        match m.book_info_store {
            Some(b) => Some(enc_book_info(b)),
            None => None,
        },
    ) + opt_entry(
        "page.history.store"@,
        match m.page_history_store {
            Some(s) => Some(enc_page_history(s)),
            None => None,
        },
    ) + opt_entry(
        "whisperstore.migration.status"@,
        match m.whisperstore_migration_status {
            Some(w) => Some(enc_whisper(w)),
            None => None,
        },
    ) + opt_entry(
        "lpr"@,
        match m.lpr {
            Some(l) => Some(enc_lpr(l)),
            None => None,
        },
    )
}

/// Abstract encoding of a timer data file.
pub open spec fn enc_timer(m: TimerView) -> ValueView {
    ValueView::Named(enc_timer_fields(m))
}

/// Encodes a language store.
pub fn encode_language_store(l: &LanguageStore) -> (r: Value)
    ensures
        r.deep_view() == enc_language(l.deep_view()),
{
    let items: Vec<Value> = vec![Value::Str(l.0.clone()), Value::Int(l.1)];
    proof {
        assert(values_view(items@) =~= seq![ValueView::Str(l.0@), ValueView::Int(l.1)]);
    }
    Value::Tuple(items)
}

/// Encodes an FPR record.
pub fn encode_fpr(f: &FPR) -> (r: Value)
    ensures
        r.deep_view() == enc_fpr(f.deep_view()),
{
    let items: Vec<Value> = vec![
        Value::Str(f.0.clone()),
        Value::Long(f.1),
        Value::Long(f.2),
        Value::Str(f.3.clone()),
        Value::Str(f.4.clone()),
    ];
    proof {
        assert(values_view(items@) =~= seq![
            ValueView::Str(f.0@),
            ValueView::Long(f.1),
            ValueView::Long(f.2),
            ValueView::Str(f.3@),
            ValueView::Str(f.4@),
        ]);
    }
    Value::Tuple(items)
}

/// Encodes an LPR record.
pub fn encode_lpr(l: &LPR) -> (r: Value)
    ensures
        r.deep_view() == enc_lpr(l.deep_view()),
{
    let items: Vec<Value> = vec![
        Value::Byte(l.0),
        Value::Str(l.1.clone()),
        Value::Long(l.2),
    ];
    proof {
        assert(values_view(items@) =~= seq![
            ValueView::Byte(l.0),
            ValueView::Str(l.1@),
            ValueView::Long(l.2),
        ]);
    }
    Value::Tuple(items)
}

/// Encodes a migration-status pair.
pub fn encode_whisperstore_migration_status(w: &WhisperstoreMigrationStatus) -> (r: Value)
    ensures
        r.deep_view() == enc_whisper(w.deep_view()),
{
    let items: Vec<Value> = vec![Value::Bool(w.0), Value::Bool(w.1)];
    proof {
        assert(values_view(items@) =~= seq![ValueView::Bool(w.0), ValueView::Bool(w.1)]);
    }
    Value::Tuple(items)
}

/// Encodes a book-info summary.
pub fn encode_book_info_store(b: &BookInfoStore) -> (r: Value)
    ensures
        r.deep_view() == enc_book_info(b.deep_view()),
{
    let items: Vec<Value> = vec![Value::Long(b.0), Value::Double(b.1.0)];
    proof {
        assert(values_view(items@) =~= seq![ValueView::Long(b.0), ValueView::Double(b.1.0)]);
    }
    Value::Tuple(items)
}

/// Encodes one page-history record under its wrapper tag.
pub fn encode_page_history_record(p: &PageHistoryRecord) -> (r: Value)
    ensures
        r.deep_view() == enc_phr(p.deep_view()),
{
    let items: Vec<Value> = vec![Value::Str(p.0.clone()), Value::Long(p.1)];
    proof {
        assert(values_view(items@) =~= seq![ValueView::Str(p.0@), ValueView::Long(p.1)]);
    }
    Value::Tagged("page.history.record".to_owned(), items)
}

/// Encodes the page-history store in model order.
pub fn encode_page_history_store(s: &Vec<PHRWrapper>) -> (r: Value)
    ensures
        r.deep_view() == enc_page_history(s.deep_view()),
{
    let mut items: Vec<Value> = Vec::new();
    let mut i: usize = 0;
    while i < s.len()
        invariant
            i <= s.len(),
            values_view(items@) =~= s.deep_view().take(i as int).map_values(
                |p: PageHistoryView| enc_phr(p),
            ),
        decreases s.len() - i,
    {
        let v = encode_page_history_record(&s[i].0);
        items.push(v);
        proof {
            assert(s.deep_view().take(i + 1) =~= s.deep_view().take(i as int).push(
                s.deep_view()[i as int],
            ));
            assert(values_view(items@) =~= s.deep_view().take(i + 1).map_values(
                |p: PageHistoryView| enc_phr(p),
            ));
        }
        i = i + 1;
    }
    proof {
        assert(s.deep_view().take(s@.len() as int) =~= s.deep_view());
    }
    Value::Tuple(items)
}

/// Encodes one normal-distribution sample under its wrapper tag.
pub fn encode_tadn(t: &TimerAverageDistributionNormal) -> (r: Value)
    ensures
        r.deep_view() == enc_tadn(*t),
{
    let items: Vec<Value> = vec![
        Value::Long(t.0),
        Value::Double(t.1.0),
        Value::Double(t.2.0),
    ];
    proof {
        assert(values_view(items@) =~= seq![
            ValueView::Long(t.0),
            ValueView::Double(t.1.0),
            ValueView::Double(t.2.0),
        ]);
    }
    Value::Tagged("timer.average.calculator.distribution.normal".to_owned(), items)
}

/// Encodes one outlier sample under its wrapper tag.
pub fn encode_tao(t: &TimerAverageOutliers) -> (r: Value)
    ensures
        r.deep_view() == enc_tao(*t),
{
    let items: Vec<Value> = vec![
        Value::Int(t.0),
        Value::Double(t.1.0),
        Value::Double(t.2.0),
    ];
    proof {
        assert(values_view(items@) =~= seq![
            ValueView::Int(t.0),
            ValueView::Double(t.1.0),
            ValueView::Double(t.2.0),
        ]);
    }
    Value::Tagged("timer.average.calculator.outliers".to_owned(), items)
}

/// Encodes the calculator data under its wrapper tag.
pub fn encode_timer_average_calculator(c: &TimerAverageCalculator) -> (r: Value)
    ensures
        r.deep_view() == enc_tac(c.deep_view()),
{
    let mut normals: Vec<Value> = Vec::new();
    let mut i: usize = 0;
    while i < c.2.len()
        invariant
            i <= c.2.len(),
            values_view(normals@) =~= c.2.deep_view().take(i as int).map_values(
                |t: TimerAverageDistributionNormal| enc_tadn(t),
            ),
        decreases c.2.len() - i,
    {
        let v = encode_tadn(&c.2[i].0);
        normals.push(v);
        proof {
            assert(c.2.deep_view().take(i + 1) =~= c.2.deep_view().take(i as int).push(
                c.2.deep_view()[i as int],
            ));
            assert(values_view(normals@) =~= c.2.deep_view().take(i + 1).map_values(
                |t: TimerAverageDistributionNormal| enc_tadn(t),
            ));
        }
        i = i + 1;
    }
    let mut outliers: Vec<Value> = Vec::new();
    let mut j: usize = 0;
    while j < c.3.len()
        invariant
            j <= c.3.len(),
            values_view(outliers@) =~= c.3.deep_view().take(j as int).map_values(
                |t: TimerAverageOutliers| enc_tao(t),
            ),
        decreases c.3.len() - j,
    {
        let v = encode_tao(&c.3[j].0);
        outliers.push(v);
        proof {
            assert(c.3.deep_view().take(j + 1) =~= c.3.deep_view().take(j as int).push(
                c.3.deep_view()[j as int],
            ));
            assert(values_view(outliers@) =~= c.3.deep_view().take(j + 1).map_values(
                |t: TimerAverageOutliers| enc_tao(t),
            ));
        }
        j = j + 1;
    }
    proof {
        assert(c.2.deep_view().take(c.2@.len() as int) =~= c.2.deep_view());
        assert(c.3.deep_view().take(c.3@.len() as int) =~= c.3.deep_view());
    }
    let items: Vec<Value> = vec![
        Value::Int(c.0),
        Value::Int(c.1),
        Value::Tuple(normals),
        Value::Tuple(outliers),
    ];
    proof {
        assert(values_view(items@) =~= seq![
            ValueView::Int(c.0),
            ValueView::Int(c.1),
            ValueView::Tuple(c.2.deep_view().map_values(
                |t: TimerAverageDistributionNormal| enc_tadn(t),
            )),
            ValueView::Tuple(c.3.deep_view().map_values(|t: TimerAverageOutliers| enc_tao(t))),
        ]);
    }
    Value::Tagged("timer.average.calculator".to_owned(), items)
}

/// Encodes a timer model.
pub fn encode_timer_model(m: &TimerModel) -> (r: Value)
    ensures
        r.deep_view() == enc_timer_model(m.deep_view()),
{
    let calc = encode_timer_average_calculator(&m.4.0);
    let items: Vec<Value> = vec![
        Value::Long(m.0),
        Value::Long(m.1),
        Value::Long(m.2),
        Value::Double(m.3.0),
        calc,
    ];
    proof {
        assert(values_view(items@) =~= seq![
            ValueView::Long(m.0),
            ValueView::Long(m.1),
            ValueView::Long(m.2),
            ValueView::Double(m.3.0),
            enc_tac(m.4.deep_view()),
        ]);
    }
    Value::Tuple(items)
}

/// Encodes the font preferences.
pub fn encode_font_preferences(f: &FontPreferences) -> (r: Value)
    ensures
        r.deep_view() == enc_font(f.deep_view()),
{
    let items: Vec<Value> = vec![
        Value::Str(f.0.clone()),
        Value::Int(f.1),
        Value::Int(f.2),
        Value::Int(f.3),
        Value::Int(f.4),
        Value::Int(f.5),
        Value::Int(f.6),
        Value::Int(f.7),
        Value::Int(f.8),
        Value::Int(f.9),
        Value::Str(f.10.clone()),
        Value::Int(f.11),
        Value::Str(f.12.clone()),
        Value::Bool(f.13),
        Value::Str(f.14.clone()),
        Value::Int(f.15),
    ];
    proof {
        assert(values_view(items@) =~= seq![
            ValueView::Str(f.0@),
            ValueView::Int(f.1),
            ValueView::Int(f.2),
            ValueView::Int(f.3),
            ValueView::Int(f.4),
            ValueView::Int(f.5),
            ValueView::Int(f.6),
            ValueView::Int(f.7),
            ValueView::Int(f.8),
            ValueView::Int(f.9),
            ValueView::Str(f.10@),
            ValueView::Int(f.11),
            ValueView::Str(f.12@),
            ValueView::Bool(f.13),
            ValueView::Str(f.14@),
            ValueView::Int(f.15),
        ]);
    }
    Value::Tuple(items)
}

/// Encodes an APNX key.
pub fn encode_apnx_key(k: &APNXKey) -> (r: Value)
    ensures
        r.deep_view() == enc_apnx(k.deep_view()),
{
    let mut ints: Vec<Value> = Vec::new();
    let mut i: usize = 0;
    while i < k.3.len()
        invariant
            i <= k.3.len(),
            values_view(ints@) =~= k.3@.take(i as int).map_values(|n: i32| ValueView::Int(n)),
        decreases k.3.len() - i,
    {
        ints.push(Value::Int(k.3[i]));
        proof {
            assert(k.3@.take(i + 1) =~= k.3@.take(i as int).push(k.3@[i as int]));
            assert(values_view(ints@) =~= k.3@.take(i + 1).map_values(
                |n: i32| ValueView::Int(n),
            ));
        }
        i = i + 1;
    }
    proof {
        assert(k.3@.take(k.3@.len() as int) =~= k.3@);
        assert(k.3@ =~= k.3.deep_view());
    }
    let items: Vec<Value> = vec![
        Value::Str(k.0.clone()),
        Value::Str(k.1.clone()),
        Value::Bool(k.2),
        Value::Tuple(ints),
        Value::Int(k.4),
        Value::Int(k.5),
        Value::Int(k.6),
        Value::Str(k.7.clone()),
    ];
    proof {
        assert(values_view(items@) =~= seq![
            ValueView::Str(k.0@),
            ValueView::Str(k.1@),
            ValueView::Bool(k.2),
            enc_int_seq(k.3.deep_view()),
            ValueView::Int(k.4),
            ValueView::Int(k.5),
            ValueView::Int(k.6),
            ValueView::Str(k.7@),
        ]);
    }
    Value::Tuple(items)
}

/// Encodes the positional fields of an annotation payload; the
/// trailing payload is emitted only when asked for and present.
fn encode_annotation_fields(d: &AnnotationData, with_payload: bool) -> (items: Vec<Value>)
    ensures
        values_view(items@) == enc_annotation_fields(d.deep_view(), with_payload),
{
    let mut items: Vec<Value> = vec![
        Value::Str(d.0.clone()),
        Value::Str(d.1.clone()),
        Value::Long(d.2),
        Value::Long(d.3),
        Value::Str(d.4.clone()),
    ];
    proof {
        assert(values_view(items@) =~= seq![
            ValueView::Str(d.0@),
            ValueView::Str(d.1@),
            ValueView::Long(d.2),
            ValueView::Long(d.3),
            ValueView::Str(d.4@),
        ]);
    }
    if with_payload {
        if let Some(p) = &d.5 {
            items.push(Value::Str(p.clone()));
        }
    }
    proof {
        assert(values_view(items@) =~= enc_annotation_fields(d.deep_view(), with_payload));
    }
    items
}

/// Encodes a note under its variant tag.  Bookmarks and highlights
/// never emit the trailing payload field.
pub fn encode_note(n: &Note) -> (r: Value)
    ensures
        r.deep_view() == enc_note(n.deep_view()),
{
    match n {
        Note::Bookmark(d) => {
            let items = encode_annotation_fields(d, false);
            Value::Tagged("annotation.personal.bookmark".to_owned(), items)
        },
        Note::Highlight(d) => {
            let items = encode_annotation_fields(d, false);
            Value::Tagged("annotation.personal.highlight".to_owned(), items)
        },
        Note::Typed(d) => {
            let items = encode_annotation_fields(d, true);
            Value::Tagged("annotation.personal.note".to_owned(), items)
        },
        Note::Handwritten(d) => {
            let items = encode_annotation_fields(d, true);
            Value::Tagged("annotation.personal.handwritten_note".to_owned(), items)
        },
        Note::Sticky(d) => {
            let items = encode_annotation_fields(d, true);
            Value::Tagged("annotation.personal.sticky_note".to_owned(), items)
        },
    }
}

/// Encodes an annotation sequence under the interval-tree wrapper tag,
/// in model order.
pub fn encode_interval_tree(t: &IntervalTree<Note>) -> (r: Value)
    ensures
        r.deep_view() == enc_tree(t.deep_view()),
{
    let mut items: Vec<Value> = Vec::new();
    let mut i: usize = 0;
    while i < t.0.len()
        invariant
            i <= t.0.len(),
            values_view(items@) =~= t.0.deep_view().take(i as int).map_values(
                |n: NoteView| enc_note(n),
            ),
        decreases t.0.len() - i,
    {
        let v = encode_note(&t.0[i]);
        items.push(v);
        proof {
            assert(t.0.deep_view().take(i + 1) =~= t.0.deep_view().take(i as int).push(
                t.0.deep_view()[i as int],
            ));
            assert(values_view(items@) =~= t.0.deep_view().take(i + 1).map_values(
                |n: NoteView| enc_note(n),
            ));
        }
        i = i + 1;
    }
    proof {
        assert(t.0.deep_view().take(t.0@.len() as int) =~= t.0.deep_view());
    }
    Value::Tagged("saved.avl.interval.tree".to_owned(), items)
}

/// Encodes the annotation cache in model order.
pub fn encode_annotation_cache(c: &Vec<(NoteType, IntervalTree<Note>)>) -> (r: Value)
    ensures
        r.deep_view() == enc_cache(c.deep_view()),
{
    let mut entries: Vec<(Value, Value)> = Vec::new();
    let mut i: usize = 0;
    while i < c.len()
        invariant
            i <= c.len(),
            entries_view(entries@) =~= c.deep_view().take(i as int).map_values(
                |e: (NoteType, Seq<NoteView>)|
                    (ValueView::Int(note_type_code(e.0)), enc_tree(e.1)),
            ),
        decreases c.len() - i,
    {
        let key = c[i].0.to_i32();
        let tree = encode_interval_tree(&c[i].1);
        entries.push((Value::Int(key), tree));
        proof {
            assert(c.deep_view().take(i + 1) =~= c.deep_view().take(i as int).push(
                c.deep_view()[i as int],
            ));
            assert(entries_view(entries@) =~= c.deep_view().take(i + 1).map_values(
                |e: (NoteType, Seq<NoteView>)|
                    (ValueView::Int(note_type_code(e.0)), enc_tree(e.1)),
            ));
        }
        i = i + 1;
    }
    proof {
        assert(c.deep_view().take(c@.len() as int) =~= c.deep_view());
    }
    Value::Mapping(entries)
}

/// Encodes the reader metrics in model order.
pub fn encode_reader_metrics(m: &Vec<(String, String)>) -> (r: Value)
    ensures
        r.deep_view() == enc_metrics(m.deep_view()),
{
    let mut fields: Vec<(String, Value)> = Vec::new();
    let mut i: usize = 0;
    while i < m.len()
        invariant
            i <= m.len(),
            named_view(fields@) =~= m.deep_view().take(i as int).map_values(
                |p: (Seq<char>, Seq<char>)| (p.0, ValueView::Str(p.1)),
            ),
        decreases m.len() - i,
    {
        let name = m[i].0.clone();
        let val = Value::Str(m[i].1.clone());
        fields.push((name, val));
        proof {
            assert(m.deep_view().take(i + 1) =~= m.deep_view().take(i as int).push(
                m.deep_view()[i as int],
            ));
            assert(named_view(fields@) =~= m.deep_view().take(i + 1).map_values(
                |p: (Seq<char>, Seq<char>)| (p.0, ValueView::Str(p.1)),
            ));
        }
        i = i + 1;
    }
    proof {
        assert(m.deep_view().take(m@.len() as int) =~= m.deep_view());
    }
    Value::Named(fields)
}

/// Encodes a reader data file: set fields in declared order, unset
/// fields skipped entirely.
#[verifier::rlimit(80)]
pub fn encode_reader_data(x: &ReaderDataFile) -> (r: Value)
    ensures
        r.deep_view() == enc_reader(x.deep_view()),
{
    let ghost m = x.deep_view();
    let mut fields: Vec<(String, Value)> = Vec::new();
    let ghost e1 = opt_entry(
        "font.prefs"@,
        match m.font_preferences {
            Some(f) => Some(enc_font(f)),
            None => None,
        },
    );
    let ghost e2 = opt_entry(
        "sync_lpr"@,
        match m.sync_lpr {
            Some(b) => Some(ValueView::Bool(b)),
            None => None,
        },
    );
    let ghost e3 = opt_entry(
        "next.in.series.info.data"@,
        match m.nis_info_data {
            Some(s) => Some(ValueView::Str(s)),
            None => None,
        },
    );
    let ghost e4 = opt_entry(
        "annotation.cache.object"@,
        match m.annotation_cache {
            Some(c) => Some(enc_cache(c)),
            None => None,
        },
    );
    let ghost e5 = opt_entry(
        "apnx.key"@,
        match m.apnx_key {
            Some(k) => Some(enc_apnx(k)),
            None => None,
        },
    );
    let ghost e6 = opt_entry(
        "language.store"@,
        match m.language_store {
            Some(l) => Some(enc_language(l)),
            None => None,
        },
    );
    let ghost e7 = opt_entry(
        "ReaderMetrics"@,
        match m.reader_metrics {
            Some(p) => Some(enc_metrics(p)),
            None => None,
        },
    );
    if let Some(f) = &x.font_preferences {
        let v = encode_font_preferences(f);
        fields.push(("font.prefs".to_owned(), v));
    }
    proof {
        assert(named_view(fields@) =~= e1);
    }
    if let Some(b) = &x.sync_lpr {
        fields.push(("sync_lpr".to_owned(), Value::Bool(*b)));
    }
    proof {
        assert(named_view(fields@) =~= e1 + e2);
    }
    if let Some(s) = &x.nis_info_data {
        fields.push(("next.in.series.info.data".to_owned(), Value::Str(s.clone())));
    }
    proof {
        assert(named_view(fields@) =~= e1 + e2 + e3);
    }
    if let Some(c) = &x.annotation_cache {
        let v = encode_annotation_cache(c);
        fields.push(("annotation.cache.object".to_owned(), v));
    }
    proof {
        assert(named_view(fields@) =~= e1 + e2 + e3 + e4);
    }
    if let Some(k) = &x.apnx_key {
        let v = encode_apnx_key(k);
        fields.push(("apnx.key".to_owned(), v));
    }
    proof {
        assert(named_view(fields@) =~= e1 + e2 + e3 + e4 + e5);
    }
    if let Some(l) = &x.language_store {
        let v = encode_language_store(l);
        fields.push(("language.store".to_owned(), v));
    }
    proof {
        assert(named_view(fields@) =~= e1 + e2 + e3 + e4 + e5 + e6);
    }
    if let Some(p) = &x.reader_metrics {
        let v = encode_reader_metrics(p);
        fields.push(("ReaderMetrics".to_owned(), v));
    }
    proof {
        assert(named_view(fields@) =~= e1 + e2 + e3 + e4 + e5 + e6 + e7);
        assert(named_view(fields@) =~= enc_reader_fields(m));
    }
    Value::Named(fields)
}

/// Encodes a timer data file: set fields in declared order, unset
/// fields skipped entirely.
#[verifier::rlimit(80)]
pub fn encode_timer_data(x: &TimerDataFile) -> (r: Value)
    ensures
        r.deep_view() == enc_timer(x.deep_view()),
{
    let ghost m = x.deep_view();
    let mut fields: Vec<(String, Value)> = Vec::new();
    let ghost e1 = opt_entry(
        "timer.model"@,
        match m.timer_model {
            Some(t) => Some(enc_timer_model(t)),
            None => None,
        },
    );
    let ghost e2 = opt_entry(
        "fpr"@,
        match m.fpr {
            Some(f) => Some(enc_fpr(f)),
            None => None,
        },
    );
    let ghost e3 = opt_entry(
        "book.info.store"@,
        match m.book_info_store {
            Some(b) => Some(enc_book_info(b)),
            None => None,
        },
    );
    let ghost e4 = opt_entry(
        "page.history.store"@,
        match m.page_history_store {
            Some(s) => Some(enc_page_history(s)),
            None => None,
        },
    );
    let ghost e5 = opt_entry(
        "whisperstore.migration.status"@,
        match m.whisperstore_migration_status {
            Some(w) => Some(enc_whisper(w)),
            None => None,
        },
    );
    let ghost e6 = opt_entry(
        "lpr"@,
        match m.lpr {
            Some(l) => Some(enc_lpr(l)),
            None => None,
        },
    );
    if let Some(t) = &x.timer_model {
        let v = encode_timer_model(t);
        fields.push(("timer.model".to_owned(), v));
    }
    proof {
        assert(named_view(fields@) =~= e1);
    }
    if let Some(f) = &x.fpr {
        let v = encode_fpr(f);
        fields.push(("fpr".to_owned(), v));
    }
    proof {
        assert(named_view(fields@) =~= e1 + e2);
    }
    if let Some(b) = &x.book_info_store {
        let v = encode_book_info_store(b);
        fields.push(("book.info.store".to_owned(), v));
    }
    proof {
        assert(named_view(fields@) =~= e1 + e2 + e3);
    }
    if let Some(s) = &x.page_history_store {
        let v = encode_page_history_store(s);
        fields.push(("page.history.store".to_owned(), v));
    }
    proof {
        assert(named_view(fields@) =~= e1 + e2 + e3 + e4);
    }
    if let Some(w) = &x.whisperstore_migration_status {
        let v = encode_whisperstore_migration_status(w);
        fields.push(("whisperstore.migration.status".to_owned(), v));
    }
    proof {
        assert(named_view(fields@) =~= e1 + e2 + e3 + e4 + e5);
    }
    if let Some(l) = &x.lpr {
        let v = encode_lpr(l);
        fields.push(("lpr".to_owned(), v));
    }
    proof {
        assert(named_view(fields@) =~= e1 + e2 + e3 + e4 + e5 + e6);
        assert(named_view(fields@) =~= enc_timer_fields(m));
    }
    Value::Named(fields)
}

} // verus!
