//! The laws of the codec: decoding inverts encoding.
//!
//! Every lemma here is stated over the abstract encodings and
//! decodings that the executable codecs are pinned to, so together
//! with those contracts they cover the executable round trip: for any
//! well-formed model value, encoding and then decoding gives the value
//! back, absent optional fields stay absent, and order is preserved.

use vstd::prelude::*;

use crate::decode::dec_annotation_fields;
use crate::decode::dec_apnx;
use crate::decode::dec_book_info;
use crate::decode::dec_cache;
use crate::decode::dec_cache_entry;
use crate::decode::dec_cache_seq;
use crate::decode::dec_font;
use crate::decode::dec_fpr;
use crate::decode::dec_i32_list;
use crate::decode::dec_int_seq;
use crate::decode::dec_language;
use crate::decode::dec_lpr;
use crate::decode::dec_metrics;
use crate::decode::dec_metrics_entry;
use crate::decode::dec_metrics_seq;
use crate::decode::dec_note;
use crate::decode::dec_note_seq;
use crate::decode::dec_page_history;
use crate::decode::dec_phr;
use crate::decode::dec_phr_seq;
use crate::decode::dec_reader;
use crate::decode::dec_tac;
use crate::decode::dec_tadn;
use crate::decode::dec_tadn_seq;
use crate::decode::dec_tao;
use crate::decode::dec_tao_seq;
use crate::decode::dec_timer;
use crate::decode::dec_timer_model;
use crate::decode::dec_tree;
use crate::decode::dec_whisper;
use crate::decode::find_field;
use crate::encode::enc_annotation_fields;
use crate::encode::enc_apnx;
use crate::encode::enc_book_info;
use crate::encode::enc_cache;
use crate::encode::enc_font;
use crate::encode::enc_fpr;
use crate::encode::enc_int_seq;
use crate::encode::enc_language;
use crate::encode::enc_lpr;
use crate::encode::enc_metrics;
use crate::encode::enc_note;
use crate::encode::enc_page_history;
use crate::encode::enc_phr;
use crate::encode::enc_reader;
use crate::encode::enc_reader_fields;
use crate::encode::enc_tac;
use crate::encode::enc_tadn;
use crate::encode::enc_tao;
use crate::encode::enc_timer;
use crate::encode::enc_timer_fields;
use crate::encode::enc_timer_model;
use crate::encode::enc_tree;
use crate::encode::enc_whisper;
use crate::encode::note_data;
use crate::encode::note_with_payload;
use crate::encode::opt_entry;
use crate::model::AnnotationDataView;
use crate::model::ApnxKeyView;
use crate::model::BookInfoStore;
use crate::model::FontPreferencesView;
use crate::model::FprView;
use crate::model::LanguageStoreView;
use crate::model::LprView;
use crate::model::NoteType;
use crate::model::NoteView;
use crate::model::PageHistoryView;
use crate::model::ReaderView;
use crate::model::TacView;
use crate::model::TimerAverageDistributionNormal;
use crate::model::TimerAverageOutliers;
use crate::model::TimerModelView;
use crate::model::TimerView;
use crate::model::WhisperstoreMigrationStatus;
use crate::model::note_type_from_code;
use crate::model::note_type_code;
use crate::value::ErrorView;
use crate::value::ValueView;

verus! {

broadcast use vstd::string::group_string_axioms;

/// A note is well formed when a bookmark or highlight carries no
/// trailing payload; the on-disk form of those variants never holds
/// one.
pub open spec fn wf_note(n: NoteView) -> bool {
    note_with_payload(n) || note_data(n).5 is None
}

/// Every note of an annotation sequence is well formed.
pub open spec fn wf_notes(s: Seq<NoteView>) -> bool {
    forall|i: int| 0 <= i < s.len() ==> #[trigger] wf_note(s[i])
}

/// Every annotation sequence of a cache is well formed.
pub open spec fn wf_cache(c: Seq<(NoteType, Seq<NoteView>)>) -> bool {
    forall|i: int| 0 <= i < c.len() ==> #[trigger] wf_notes(c[i].1)
}

/// A reader file is well formed when its annotation cache is.
pub open spec fn wf_reader(m: ReaderView) -> bool {
    match m.annotation_cache {
        Some(c) => wf_cache(c),
        None => true,
    }
}

/// Decoding an encoded language store gives it back.
pub proof fn lemma_language_round_trip(l: LanguageStoreView)
    ensures
        dec_language(enc_language(l)) == Ok::<LanguageStoreView, ErrorView>(l),
{
}

/// Decoding an encoded FPR gives it back.
pub proof fn lemma_fpr_round_trip(f: FprView)
    ensures
        dec_fpr(enc_fpr(f)) == Ok::<FprView, ErrorView>(f),
{
}

/// Decoding an encoded LPR gives it back.
pub proof fn lemma_lpr_round_trip(l: LprView)
    ensures
        dec_lpr(enc_lpr(l)) == Ok::<LprView, ErrorView>(l),
{
}

/// Decoding an encoded migration status gives it back.
pub proof fn lemma_whisper_round_trip(w: WhisperstoreMigrationStatus)
    ensures
        dec_whisper(enc_whisper(w)) == Ok::<WhisperstoreMigrationStatus, ErrorView>(w),
{
}

/// Decoding an encoded book-info summary gives it back.
pub proof fn lemma_book_info_round_trip(b: BookInfoStore)
    ensures
        dec_book_info(enc_book_info(b)) == Ok::<BookInfoStore, ErrorView>(b),
{
}

/// Decoding an encoded page-history record gives it back.
pub proof fn lemma_phr_round_trip(p: PageHistoryView)
    ensures
        dec_phr(enc_phr(p)) == Ok::<PageHistoryView, ErrorView>(p),
{
}

/// Decoding an encoded normal-distribution sample gives it back.
pub proof fn lemma_tadn_round_trip(t: TimerAverageDistributionNormal)
    ensures
        dec_tadn(enc_tadn(t)) == Ok::<TimerAverageDistributionNormal, ErrorView>(t),
{
}

/// Decoding an encoded outlier sample gives it back.
pub proof fn lemma_tao_round_trip(t: TimerAverageOutliers)
    ensures
        dec_tao(enc_tao(t)) == Ok::<TimerAverageOutliers, ErrorView>(t),
{
}

/// Decoding encoded font preferences gives them back.
pub proof fn lemma_font_round_trip(f: FontPreferencesView)
    ensures
        dec_font(enc_font(f)) == Ok::<FontPreferencesView, ErrorView>(f),
{
}

/// Decoding an encoded integer sequence gives it back.
pub proof fn lemma_int_seq_round_trip(s: Seq<i32>)
    ensures
        dec_int_seq(enc_int_seq(s)) == Ok::<Seq<i32>, ErrorView>(s),
    decreases s.len(),
{
    let m = s.map_values(|n: i32| ValueView::Int(n));
    assert(enc_int_seq(s)->Tuple_0 =~= m);
    if s.len() == 0 {
        assert(m =~= Seq::<ValueView>::empty());
        assert(s =~= Seq::<i32>::empty());
    } else {
        lemma_int_seq_round_trip(s.drop_last());
        assert(enc_int_seq(s.drop_last())->Tuple_0 =~= s.drop_last().map_values(
            |n: i32| ValueView::Int(n),
        ));
        assert(m.drop_last() =~= s.drop_last().map_values(|n: i32| ValueView::Int(n)));
        assert(m[m.len() - 1] == ValueView::Int(s[s.len() - 1]));
        assert(dec_i32_list(m) == Ok::<Seq<i32>, ErrorView>(s.drop_last().push(s[s.len() - 1])));
        assert(s.drop_last().push(s[s.len() - 1]) =~= s);
    }
}

/// Decoding an encoded APNX key gives it back.
pub proof fn lemma_apnx_round_trip(k: ApnxKeyView)
    ensures
        dec_apnx(enc_apnx(k)) == Ok::<ApnxKeyView, ErrorView>(k),
{
    lemma_int_seq_round_trip(k.3);
}

/// Decoding encoded annotation fields gives the payload back, as long
/// as an omitted trailing payload was indeed absent.
pub proof fn lemma_annotation_round_trip(d: AnnotationDataView, with_payload: bool)
    requires
        with_payload || d.5 is None,
    ensures
        dec_annotation_fields(enc_annotation_fields(d, with_payload)) == Ok::<
            AnnotationDataView,
            ErrorView,
        >(d),
{
}

/// Decoding an encoded note gives it back, for well-formed notes.
pub proof fn lemma_note_round_trip(n: NoteView)
    requires
        wf_note(n),
    ensures
        dec_note(enc_note(n)) == Ok::<NoteView, ErrorView>(n),
{
    reveal_strlit("annotation.personal.bookmark");
    reveal_strlit("annotation.personal.highlight");
    reveal_strlit("annotation.personal.note");
    reveal_strlit("annotation.personal.handwritten_note");
    reveal_strlit("annotation.personal.sticky_note");
    assert("annotation.personal.bookmark"@ != "annotation.personal.highlight"@) by {
        assert(("annotation.personal.bookmark"@).len() != (
        "annotation.personal.highlight"@).len());
    }
    assert("annotation.personal.bookmark"@ != "annotation.personal.note"@) by {
        assert(("annotation.personal.bookmark"@).len() != ("annotation.personal.note"@).len());
    }
    assert("annotation.personal.bookmark"@ != "annotation.personal.handwritten_note"@) by {
        assert(("annotation.personal.bookmark"@).len() != ("annotation.personal.handwritten_note"@).len());
    }
    assert("annotation.personal.bookmark"@ != "annotation.personal.sticky_note"@) by {
        assert(("annotation.personal.bookmark"@).len() != ("annotation.personal.sticky_note"@).len());
    }
    assert("annotation.personal.highlight"@ != "annotation.personal.note"@) by {
        assert(("annotation.personal.highlight"@).len() != ("annotation.personal.note"@).len());
    }
    assert("annotation.personal.highlight"@ != "annotation.personal.handwritten_note"@) by {
        assert(("annotation.personal.highlight"@).len() != ("annotation.personal.handwritten_note"@).len());
    }
    assert("annotation.personal.highlight"@ != "annotation.personal.sticky_note"@) by {
        assert(("annotation.personal.highlight"@).len() != ("annotation.personal.sticky_note"@).len());
    }
    assert("annotation.personal.note"@ != "annotation.personal.handwritten_note"@) by {
        assert(("annotation.personal.note"@).len() != ("annotation.personal.handwritten_note"@).len());
    }
    assert("annotation.personal.note"@ != "annotation.personal.sticky_note"@) by {
        assert(("annotation.personal.note"@).len() != ("annotation.personal.sticky_note"@).len());
    }
    assert("annotation.personal.handwritten_note"@ != "annotation.personal.sticky_note"@) by {
        assert(("annotation.personal.handwritten_note"@).len() != ("annotation.personal.sticky_note"@).len());
    }
    lemma_annotation_round_trip(note_data(n), note_with_payload(n));
}

/// Decoding an encoded annotation sequence gives it back, in order.
pub proof fn lemma_note_seq_round_trip(s: Seq<NoteView>)
    requires
        wf_notes(s),
    ensures
        dec_note_seq(s.map_values(|n: NoteView| enc_note(n))) == Ok::<Seq<NoteView>, ErrorView>(
            s,
        ),
    decreases s.len(),
{
    let m = s.map_values(|n: NoteView| enc_note(n));
    if s.len() == 0 {
        assert(m =~= Seq::<ValueView>::empty());
        assert(s =~= Seq::<NoteView>::empty());
    } else {
        assert(wf_notes(s.drop_last())) by {
            assert(forall|i: int|
                0 <= i < s.len() - 1 ==> s.drop_last()[i] == s[i] && wf_note(s[i]));
        }
        lemma_note_seq_round_trip(s.drop_last());
        assert(m.drop_last() =~= s.drop_last().map_values(|n: NoteView| enc_note(n)));
        assert(m[m.len() - 1] == enc_note(s[s.len() - 1]));
        assert(wf_note(s[s.len() - 1]));
        lemma_note_round_trip(s[s.len() - 1]);
        assert(dec_note_seq(m) == Ok::<Seq<NoteView>, ErrorView>(
            s.drop_last().push(s[s.len() - 1]),
        ));
        assert(s.drop_last().push(s[s.len() - 1]) =~= s);
    }
}

/// Decoding an encoded interval tree gives the annotation sequence
/// back in the same order: never reordered by position or timestamp.
pub proof fn lemma_tree_round_trip(s: Seq<NoteView>)
    requires
        wf_notes(s),
    ensures
        dec_tree(enc_tree(s)) == Ok::<Seq<NoteView>, ErrorView>(s),
{
    lemma_note_seq_round_trip(s);
}

/// Decoding an encoded annotation cache gives it back, entries and
/// annotations in order.
pub proof fn lemma_cache_round_trip(c: Seq<(NoteType, Seq<NoteView>)>)
    requires
        wf_cache(c),
    ensures
        dec_cache(enc_cache(c)) == Ok::<Seq<(NoteType, Seq<NoteView>)>, ErrorView>(c),
    decreases c.len(),
{
    let f = |e: (NoteType, Seq<NoteView>)|
        (ValueView::Int(note_type_code(e.0)), enc_tree(e.1));
    let m = c.map_values(f);
    assert(enc_cache(c)->Mapping_0 =~= m);
    if c.len() == 0 {
        assert(m =~= Seq::<(ValueView, ValueView)>::empty());
        assert(c =~= Seq::<(NoteType, Seq<NoteView>)>::empty());
    } else {
        assert(wf_cache(c.drop_last())) by {
            assert(forall|i: int|
                0 <= i < c.len() - 1 ==> c.drop_last()[i] == c[i] && wf_notes(c[i].1));
        }
        lemma_cache_round_trip(c.drop_last());
        assert(enc_cache(c.drop_last())->Mapping_0 =~= m.drop_last());
        let last = c[c.len() - 1];
        assert(m[m.len() - 1] == (ValueView::Int(note_type_code(last.0)), enc_tree(last.1)));
        assert(note_type_from_code(note_type_code(last.0)) == Ok::<NoteType, ()>(last.0));
        assert(wf_notes(last.1));
        lemma_tree_round_trip(last.1);
        assert(dec_cache_entry(m[m.len() - 1]) == Ok::<(NoteType, Seq<NoteView>), ErrorView>(
            last,
        ));
        assert(dec_cache_seq(m) == Ok::<Seq<(NoteType, Seq<NoteView>)>, ErrorView>(
            c.drop_last().push(last),
        ));
        assert(c.drop_last().push(last) =~= c);
    }
}

/// Decoding encoded reader metrics gives them back, in order.
pub proof fn lemma_metrics_round_trip(p: Seq<(Seq<char>, Seq<char>)>)
    ensures
        dec_metrics(enc_metrics(p)) == Ok::<Seq<(Seq<char>, Seq<char>)>, ErrorView>(p),
    decreases p.len(),
{
    let f = |q: (Seq<char>, Seq<char>)| (q.0, ValueView::Str(q.1));
    let m = p.map_values(f);
    assert(enc_metrics(p)->Named_0 =~= m);
    if p.len() == 0 {
        assert(m =~= Seq::<(Seq<char>, ValueView)>::empty());
        assert(p =~= Seq::<(Seq<char>, Seq<char>)>::empty());
    } else {
        lemma_metrics_round_trip(p.drop_last());
        assert(enc_metrics(p.drop_last())->Named_0 =~= m.drop_last());
        let last = p[p.len() - 1];
        assert(m[m.len() - 1] == (last.0, ValueView::Str(last.1)));
        assert(dec_metrics_entry(m[m.len() - 1]) == Ok::<(Seq<char>, Seq<char>), ErrorView>(
            last,
        ));
        assert(dec_metrics_seq(m) == Ok::<Seq<(Seq<char>, Seq<char>)>, ErrorView>(
            p.drop_last().push(last),
        ));
        assert(p.drop_last().push(last) =~= p);
    }
}

/// Decoding an encoded page-history store gives it back, in order.
pub proof fn lemma_page_history_round_trip(s: Seq<PageHistoryView>)
    ensures
        dec_page_history(enc_page_history(s)) == Ok::<Seq<PageHistoryView>, ErrorView>(s),
    decreases s.len(),
{
    let m = s.map_values(|p: PageHistoryView| enc_phr(p));
    assert(enc_page_history(s)->Tuple_0 =~= m);
    if s.len() == 0 {
        assert(m =~= Seq::<ValueView>::empty());
        assert(s =~= Seq::<PageHistoryView>::empty());
    } else {
        lemma_page_history_round_trip(s.drop_last());
        assert(enc_page_history(s.drop_last())->Tuple_0 =~= m.drop_last());
        assert(m[m.len() - 1] == enc_phr(s[s.len() - 1]));
        lemma_phr_round_trip(s[s.len() - 1]);
        assert(dec_phr_seq(m) == Ok::<Seq<PageHistoryView>, ErrorView>(
            s.drop_last().push(s[s.len() - 1]),
        ));
        assert(s.drop_last().push(s[s.len() - 1]) =~= s);
    }
}

/// Decoding an encoded sample sequence gives it back.
pub proof fn lemma_tadn_seq_round_trip(s: Seq<TimerAverageDistributionNormal>)
    ensures
        dec_tadn_seq(s.map_values(|t: TimerAverageDistributionNormal| enc_tadn(t))) == Ok::<
            Seq<TimerAverageDistributionNormal>,
            ErrorView,
        >(s),
    decreases s.len(),
{
    let m = s.map_values(|t: TimerAverageDistributionNormal| enc_tadn(t));
    if s.len() == 0 {
        assert(m =~= Seq::<ValueView>::empty());
        assert(s =~= Seq::<TimerAverageDistributionNormal>::empty());
    } else {
        lemma_tadn_seq_round_trip(s.drop_last());
        assert(m.drop_last() =~= s.drop_last().map_values(
            |t: TimerAverageDistributionNormal| enc_tadn(t),
        ));
        assert(m[m.len() - 1] == enc_tadn(s[s.len() - 1]));
        lemma_tadn_round_trip(s[s.len() - 1]);
        assert(dec_tadn_seq(m) == Ok::<Seq<TimerAverageDistributionNormal>, ErrorView>(
            s.drop_last().push(s[s.len() - 1]),
        ));
        assert(s.drop_last().push(s[s.len() - 1]) =~= s);
    }
}

/// Decoding an encoded outlier sequence gives it back.
pub proof fn lemma_tao_seq_round_trip(s: Seq<TimerAverageOutliers>)
    ensures
        dec_tao_seq(s.map_values(|t: TimerAverageOutliers| enc_tao(t))) == Ok::<
            Seq<TimerAverageOutliers>,
            ErrorView,
        >(s),
    decreases s.len(),
{
    let m = s.map_values(|t: TimerAverageOutliers| enc_tao(t));
    if s.len() == 0 {
        assert(m =~= Seq::<ValueView>::empty());
        assert(s =~= Seq::<TimerAverageOutliers>::empty());
    } else {
        lemma_tao_seq_round_trip(s.drop_last());
        assert(m.drop_last() =~= s.drop_last().map_values(|t: TimerAverageOutliers| enc_tao(t)));
        assert(m[m.len() - 1] == enc_tao(s[s.len() - 1]));
        lemma_tao_round_trip(s[s.len() - 1]);
        assert(dec_tao_seq(m) == Ok::<Seq<TimerAverageOutliers>, ErrorView>(
            s.drop_last().push(s[s.len() - 1]),
        ));
        assert(s.drop_last().push(s[s.len() - 1]) =~= s);
    }
}

/// Decoding an encoded calculator gives it back.
pub proof fn lemma_tac_round_trip(c: TacView)
    ensures
        dec_tac(enc_tac(c)) == Ok::<TacView, ErrorView>(c),
{
    lemma_tadn_seq_round_trip(c.2);
    lemma_tao_seq_round_trip(c.3);
    assert(enc_tac(c)->Tagged_1[2]->Tuple_0 =~= c.2.map_values(
        |t: TimerAverageDistributionNormal| enc_tadn(t),
    ));
    assert(enc_tac(c)->Tagged_1[3]->Tuple_0 =~= c.3.map_values(
        |t: TimerAverageOutliers| enc_tao(t),
    ));
}

/// Decoding an encoded timer model gives it back.
pub proof fn lemma_timer_model_round_trip(m: TimerModelView)
    ensures
        dec_timer_model(enc_timer_model(m)) == Ok::<TimerModelView, ErrorView>(m),
{
    lemma_tac_round_trip(m.4);
}

/// Looking a name up in a concatenation finds the first hit.
pub proof fn lemma_find_field_concat(
    a: Seq<(Seq<char>, ValueView)>,
    b: Seq<(Seq<char>, ValueView)>,
    name: Seq<char>,
)
    ensures
        find_field(a + b, name) == (match find_field(a, name) {
            Some(v) => Some(v),
            None => find_field(b, name),
        }),
    decreases a.len(),
{
    if a.len() == 0 {
        assert(a + b =~= b);
    } else {
        assert((a + b)[0] == a[0]);
        assert((a + b).len() > 0);
        if a[0].0 == name {
        } else {
            assert((a + b).drop_first() =~= a.drop_first() + b);
            lemma_find_field_concat(a.drop_first(), b, name);
        }
    }
}

/// An optional entry under one name is invisible to a lookup under
/// another.
pub proof fn lemma_find_field_opt_miss(name: Seq<char>, o: Option<ValueView>, other: Seq<char>)
    requires
        name != other,
    ensures
        find_field(opt_entry(name, o), other) is None,
{
    match o {
        Some(v) => {
            let s = opt_entry(name, o);
            assert(s.len() == 1);
            assert(s[0].0 == name);
            assert(s.drop_first() =~= Seq::<(Seq<char>, ValueView)>::empty());
            assert(find_field(s.drop_first(), other) is None);
            assert(find_field(s, other) is None);
        },
        None => {},
    }
}

/// An optional entry yields exactly its option under its own name.
pub proof fn lemma_find_field_opt_hit(name: Seq<char>, o: Option<ValueView>)
    ensures
        find_field(opt_entry(name, o), name) == o,
{
}

/// Decoding an encoded file gives the file back, absent optional
/// fields staying absent: the round trip of the whole codec.
#[verifier::rlimit(100)]
pub proof fn lemma_reader_round_trip(m: ReaderView)
    requires
        wf_reader(m),
    ensures
        dec_reader(enc_reader(m)) == Ok::<ReaderView, ErrorView>(m),
{
    reveal_strlit("font.prefs");
    reveal_strlit("sync_lpr");
    reveal_strlit("next.in.series.info.data");
    reveal_strlit("annotation.cache.object");
    reveal_strlit("apnx.key");
    reveal_strlit("language.store");
    reveal_strlit("ReaderMetrics");
    assert("font.prefs"@ != "sync_lpr"@) by {
        assert(("font.prefs"@).len() != ("sync_lpr"@).len());
    }
    assert("font.prefs"@ != "next.in.series.info.data"@) by {
        assert(("font.prefs"@).len() != ("next.in.series.info.data"@).len());
    }
    assert("font.prefs"@ != "annotation.cache.object"@) by {
        assert(("font.prefs"@).len() != ("annotation.cache.object"@).len());
    }
    assert("font.prefs"@ != "apnx.key"@) by {
        assert(("font.prefs"@).len() != ("apnx.key"@).len());
    }
    assert("font.prefs"@ != "language.store"@) by {
        assert(("font.prefs"@).len() != ("language.store"@).len());
    }
    assert("font.prefs"@ != "ReaderMetrics"@) by {
        assert(("font.prefs"@).len() != ("ReaderMetrics"@).len());
    }
    assert("sync_lpr"@ != "next.in.series.info.data"@) by {
        assert(("sync_lpr"@).len() != ("next.in.series.info.data"@).len());
    }
    assert("sync_lpr"@ != "annotation.cache.object"@) by {
        assert(("sync_lpr"@).len() != ("annotation.cache.object"@).len());
    }
    assert("sync_lpr"@ != "apnx.key"@) by {
        assert(("sync_lpr"@)[0] != ("apnx.key"@)[0]);
    }
    assert("sync_lpr"@ != "language.store"@) by {
        assert(("sync_lpr"@).len() != ("language.store"@).len());
    }
    assert("sync_lpr"@ != "ReaderMetrics"@) by {
        assert(("sync_lpr"@).len() != ("ReaderMetrics"@).len());
    }
    assert("next.in.series.info.data"@ != "annotation.cache.object"@) by {
        assert(("next.in.series.info.data"@).len() != ("annotation.cache.object"@).len());
    }
    assert("next.in.series.info.data"@ != "apnx.key"@) by {
        assert(("next.in.series.info.data"@).len() != ("apnx.key"@).len());
    }
    assert("next.in.series.info.data"@ != "language.store"@) by {
        assert(("next.in.series.info.data"@).len() != ("language.store"@).len());
    }
    assert("next.in.series.info.data"@ != "ReaderMetrics"@) by {
        assert(("next.in.series.info.data"@).len() != ("ReaderMetrics"@).len());
    }
    assert("annotation.cache.object"@ != "apnx.key"@) by {
        assert(("annotation.cache.object"@).len() != ("apnx.key"@).len());
    }
    assert("annotation.cache.object"@ != "language.store"@) by {
        assert(("annotation.cache.object"@).len() != ("language.store"@).len());
    }
    assert("annotation.cache.object"@ != "ReaderMetrics"@) by {
        assert(("annotation.cache.object"@).len() != ("ReaderMetrics"@).len());
    }
    assert("apnx.key"@ != "language.store"@) by {
        assert(("apnx.key"@).len() != ("language.store"@).len());
    }
    assert("apnx.key"@ != "ReaderMetrics"@) by {
        assert(("apnx.key"@).len() != ("ReaderMetrics"@).len());
    }
    assert("language.store"@ != "ReaderMetrics"@) by {
        assert(("language.store"@).len() != ("ReaderMetrics"@).len());
    }
    let e1 = opt_entry(
        "font.prefs"@,
        match m.font_preferences {
            Some(f) => Some(enc_font(f)),
            None => None,
        },
    );
    let e2 = opt_entry(
        "sync_lpr"@,
        match m.sync_lpr {
            Some(b) => Some(ValueView::Bool(b)),
            None => None,
        },
    );
    let e3 = opt_entry(
        "next.in.series.info.data"@,
        match m.nis_info_data {
            Some(s) => Some(ValueView::Str(s)),
            None => None,
        },
    );
    let e4 = opt_entry(
        "annotation.cache.object"@,
        match m.annotation_cache {
            Some(c) => Some(enc_cache(c)),
            None => None,
        },
    );
    let e5 = opt_entry(
        "apnx.key"@,
        match m.apnx_key {
            Some(k) => Some(enc_apnx(k)),
            None => None,
        },
    );
    let e6 = opt_entry(
        "language.store"@,
        match m.language_store {
            Some(l) => Some(enc_language(l)),
            None => None,
        },
    );
    let e7 = opt_entry(
        "ReaderMetrics"@,
        match m.reader_metrics {
            Some(p) => Some(enc_metrics(p)),
            None => None,
        },
    );
    let a2 = e1 + e2;
    let a3 = a2 + e3;
    let a4 = a3 + e4;
    let a5 = a4 + e5;
    let a6 = a5 + e6;
    let a7 = a6 + e7;
    let fs = enc_reader_fields(m);
    assert(fs == a7);
    lemma_find_field_concat(a6, e7, "font.prefs"@);
    lemma_find_field_concat(a5, e6, "font.prefs"@);
    lemma_find_field_concat(a4, e5, "font.prefs"@);
    lemma_find_field_concat(a3, e4, "font.prefs"@);
    lemma_find_field_concat(a2, e3, "font.prefs"@);
    lemma_find_field_concat(e1, e2, "font.prefs"@);
    lemma_find_field_opt_hit("font.prefs"@, match m.font_preferences {
        Some(f) => Some(enc_font(f)),
        None => None,
    });
    lemma_find_field_opt_miss("sync_lpr"@, match m.sync_lpr {
        Some(b) => Some(ValueView::Bool(b)),
        None => None,
    }, "font.prefs"@);
    lemma_find_field_opt_miss("next.in.series.info.data"@, match m.nis_info_data {
        Some(s) => Some(ValueView::Str(s)),
        None => None,
    }, "font.prefs"@);
    lemma_find_field_opt_miss("annotation.cache.object"@, match m.annotation_cache {
        Some(c) => Some(enc_cache(c)),
        None => None,
    }, "font.prefs"@);
    lemma_find_field_opt_miss("apnx.key"@, match m.apnx_key {
        Some(k) => Some(enc_apnx(k)),
        None => None,
    }, "font.prefs"@);
    lemma_find_field_opt_miss("language.store"@, match m.language_store {
        Some(l) => Some(enc_language(l)),
        None => None,
    }, "font.prefs"@);
    lemma_find_field_opt_miss("ReaderMetrics"@, match m.reader_metrics {
        Some(p) => Some(enc_metrics(p)),
        None => None,
    }, "font.prefs"@);
    lemma_find_field_concat(a6, e7, "sync_lpr"@);
    lemma_find_field_concat(a5, e6, "sync_lpr"@);
    lemma_find_field_concat(a4, e5, "sync_lpr"@);
    lemma_find_field_concat(a3, e4, "sync_lpr"@);
    lemma_find_field_concat(a2, e3, "sync_lpr"@);
    lemma_find_field_concat(e1, e2, "sync_lpr"@);
    lemma_find_field_opt_miss("font.prefs"@, match m.font_preferences {
        Some(f) => Some(enc_font(f)),
        None => None,
    }, "sync_lpr"@);
    lemma_find_field_opt_hit("sync_lpr"@, match m.sync_lpr {
        Some(b) => Some(ValueView::Bool(b)),
        None => None,
    });
    lemma_find_field_opt_miss("next.in.series.info.data"@, match m.nis_info_data {
        Some(s) => Some(ValueView::Str(s)),
        None => None,
    }, "sync_lpr"@);
    lemma_find_field_opt_miss("annotation.cache.object"@, match m.annotation_cache {
        Some(c) => Some(enc_cache(c)),
        None => None,
    }, "sync_lpr"@);
    lemma_find_field_opt_miss("apnx.key"@, match m.apnx_key {
        Some(k) => Some(enc_apnx(k)),
        None => None,
    }, "sync_lpr"@);
    lemma_find_field_opt_miss("language.store"@, match m.language_store {
        Some(l) => Some(enc_language(l)),
        None => None,
    }, "sync_lpr"@);
    lemma_find_field_opt_miss("ReaderMetrics"@, match m.reader_metrics {
        Some(p) => Some(enc_metrics(p)),
        None => None,
    }, "sync_lpr"@);
    lemma_find_field_concat(a6, e7, "next.in.series.info.data"@);
    lemma_find_field_concat(a5, e6, "next.in.series.info.data"@);
    lemma_find_field_concat(a4, e5, "next.in.series.info.data"@);
    lemma_find_field_concat(a3, e4, "next.in.series.info.data"@);
    lemma_find_field_concat(a2, e3, "next.in.series.info.data"@);
    lemma_find_field_concat(e1, e2, "next.in.series.info.data"@);
    lemma_find_field_opt_miss("font.prefs"@, match m.font_preferences {
        Some(f) => Some(enc_font(f)),
        None => None,
    }, "next.in.series.info.data"@);
    lemma_find_field_opt_miss("sync_lpr"@, match m.sync_lpr {
        Some(b) => Some(ValueView::Bool(b)),
        None => None,
    }, "next.in.series.info.data"@);
    lemma_find_field_opt_hit("next.in.series.info.data"@, match m.nis_info_data {
        Some(s) => Some(ValueView::Str(s)),
        None => None,
    });
    lemma_find_field_opt_miss("annotation.cache.object"@, match m.annotation_cache {
        Some(c) => Some(enc_cache(c)),
        None => None,
    }, "next.in.series.info.data"@);
    lemma_find_field_opt_miss("apnx.key"@, match m.apnx_key {
        Some(k) => Some(enc_apnx(k)),
        None => None,
    }, "next.in.series.info.data"@);
    lemma_find_field_opt_miss("language.store"@, match m.language_store {
        Some(l) => Some(enc_language(l)),
        None => None,
    }, "next.in.series.info.data"@);
    lemma_find_field_opt_miss("ReaderMetrics"@, match m.reader_metrics {
        Some(p) => Some(enc_metrics(p)),
        None => None,
    }, "next.in.series.info.data"@);
    lemma_find_field_concat(a6, e7, "annotation.cache.object"@);
    lemma_find_field_concat(a5, e6, "annotation.cache.object"@);
    lemma_find_field_concat(a4, e5, "annotation.cache.object"@);
    lemma_find_field_concat(a3, e4, "annotation.cache.object"@);
    lemma_find_field_concat(a2, e3, "annotation.cache.object"@);
    lemma_find_field_concat(e1, e2, "annotation.cache.object"@);
    lemma_find_field_opt_miss("font.prefs"@, match m.font_preferences {
        Some(f) => Some(enc_font(f)),
        None => None,
    }, "annotation.cache.object"@);
    lemma_find_field_opt_miss("sync_lpr"@, match m.sync_lpr {
        Some(b) => Some(ValueView::Bool(b)),
        None => None,
    }, "annotation.cache.object"@);
    lemma_find_field_opt_miss("next.in.series.info.data"@, match m.nis_info_data {
        Some(s) => Some(ValueView::Str(s)),
        None => None,
    }, "annotation.cache.object"@);
    lemma_find_field_opt_hit("annotation.cache.object"@, match m.annotation_cache {
        Some(c) => Some(enc_cache(c)),
        None => None,
    });
    lemma_find_field_opt_miss("apnx.key"@, match m.apnx_key {
        Some(k) => Some(enc_apnx(k)),
        None => None,
    }, "annotation.cache.object"@);
    lemma_find_field_opt_miss("language.store"@, match m.language_store {
        Some(l) => Some(enc_language(l)),
        None => None,
    }, "annotation.cache.object"@);
    lemma_find_field_opt_miss("ReaderMetrics"@, match m.reader_metrics {
        Some(p) => Some(enc_metrics(p)),
        None => None,
    }, "annotation.cache.object"@);
    lemma_find_field_concat(a6, e7, "apnx.key"@);
    lemma_find_field_concat(a5, e6, "apnx.key"@);
    lemma_find_field_concat(a4, e5, "apnx.key"@);
    lemma_find_field_concat(a3, e4, "apnx.key"@);
    lemma_find_field_concat(a2, e3, "apnx.key"@);
    lemma_find_field_concat(e1, e2, "apnx.key"@);
    lemma_find_field_opt_miss("font.prefs"@, match m.font_preferences {
        Some(f) => Some(enc_font(f)),
        None => None,
    }, "apnx.key"@);
    lemma_find_field_opt_miss("sync_lpr"@, match m.sync_lpr {
        Some(b) => Some(ValueView::Bool(b)),
        None => None,
    }, "apnx.key"@);
    lemma_find_field_opt_miss("next.in.series.info.data"@, match m.nis_info_data {
        Some(s) => Some(ValueView::Str(s)),
        None => None,
    }, "apnx.key"@);
    lemma_find_field_opt_miss("annotation.cache.object"@, match m.annotation_cache {
        Some(c) => Some(enc_cache(c)),
        None => None,
    }, "apnx.key"@);
    lemma_find_field_opt_hit("apnx.key"@, match m.apnx_key {
        Some(k) => Some(enc_apnx(k)),
        None => None,
    });
    lemma_find_field_opt_miss("language.store"@, match m.language_store {
        Some(l) => Some(enc_language(l)),
        None => None,
    }, "apnx.key"@);
    lemma_find_field_opt_miss("ReaderMetrics"@, match m.reader_metrics {
        Some(p) => Some(enc_metrics(p)),
        None => None,
    }, "apnx.key"@);
    lemma_find_field_concat(a6, e7, "language.store"@);
    lemma_find_field_concat(a5, e6, "language.store"@);
    lemma_find_field_concat(a4, e5, "language.store"@);
    lemma_find_field_concat(a3, e4, "language.store"@);
    lemma_find_field_concat(a2, e3, "language.store"@);
    lemma_find_field_concat(e1, e2, "language.store"@);
    lemma_find_field_opt_miss("font.prefs"@, match m.font_preferences {
        Some(f) => Some(enc_font(f)),
        None => None,
    }, "language.store"@);
    lemma_find_field_opt_miss("sync_lpr"@, match m.sync_lpr {
        Some(b) => Some(ValueView::Bool(b)),
        None => None,
    }, "language.store"@);
    lemma_find_field_opt_miss("next.in.series.info.data"@, match m.nis_info_data {
        Some(s) => Some(ValueView::Str(s)),
        None => None,
    }, "language.store"@);
    lemma_find_field_opt_miss("annotation.cache.object"@, match m.annotation_cache {
        Some(c) => Some(enc_cache(c)),
        None => None,
    }, "language.store"@);
    lemma_find_field_opt_miss("apnx.key"@, match m.apnx_key {
        Some(k) => Some(enc_apnx(k)),
        None => None,
    }, "language.store"@);
    lemma_find_field_opt_hit("language.store"@, match m.language_store {
        Some(l) => Some(enc_language(l)),
        None => None,
    });
    lemma_find_field_opt_miss("ReaderMetrics"@, match m.reader_metrics {
        Some(p) => Some(enc_metrics(p)),
        None => None,
    }, "language.store"@);
    lemma_find_field_concat(a6, e7, "ReaderMetrics"@);
    lemma_find_field_concat(a5, e6, "ReaderMetrics"@);
    lemma_find_field_concat(a4, e5, "ReaderMetrics"@);
    lemma_find_field_concat(a3, e4, "ReaderMetrics"@);
    lemma_find_field_concat(a2, e3, "ReaderMetrics"@);
    lemma_find_field_concat(e1, e2, "ReaderMetrics"@);
    lemma_find_field_opt_miss("font.prefs"@, match m.font_preferences {
        Some(f) => Some(enc_font(f)),
        None => None,
    }, "ReaderMetrics"@);
    lemma_find_field_opt_miss("sync_lpr"@, match m.sync_lpr {
        Some(b) => Some(ValueView::Bool(b)),
        None => None,
    }, "ReaderMetrics"@);
    lemma_find_field_opt_miss("next.in.series.info.data"@, match m.nis_info_data {
        Some(s) => Some(ValueView::Str(s)),
        None => None,
    }, "ReaderMetrics"@);
    lemma_find_field_opt_miss("annotation.cache.object"@, match m.annotation_cache {
        Some(c) => Some(enc_cache(c)),
        None => None,
    }, "ReaderMetrics"@);
    lemma_find_field_opt_miss("apnx.key"@, match m.apnx_key {
        Some(k) => Some(enc_apnx(k)),
        None => None,
    }, "ReaderMetrics"@);
    lemma_find_field_opt_miss("language.store"@, match m.language_store {
        Some(l) => Some(enc_language(l)),
        None => None,
    }, "ReaderMetrics"@);
    lemma_find_field_opt_hit("ReaderMetrics"@, match m.reader_metrics {
        Some(p) => Some(enc_metrics(p)),
        None => None,
    });
    match m.font_preferences {
        Some(f) => {
            lemma_font_round_trip(f);
        },
        None => {},
    }
    match m.annotation_cache {
        Some(c) => {
            lemma_cache_round_trip(c);
        },
        None => {},
    }
    match m.apnx_key {
        Some(k) => {
            lemma_apnx_round_trip(k);
        },
        None => {},
    }
    match m.language_store {
        Some(l) => {
            lemma_language_round_trip(l);
        },
        None => {},
    }
    match m.reader_metrics {
        Some(p) => {
            lemma_metrics_round_trip(p);
        },
        None => {},
    }
}

/// Decoding an encoded file gives the file back, absent optional
/// fields staying absent: the round trip of the whole codec.
#[verifier::rlimit(100)]
pub proof fn lemma_timer_round_trip(m: TimerView)
    ensures
        dec_timer(enc_timer(m)) == Ok::<TimerView, ErrorView>(m),
{
    reveal_strlit("timer.model");
    reveal_strlit("fpr");
    reveal_strlit("book.info.store");
    reveal_strlit("page.history.store");
    reveal_strlit("whisperstore.migration.status");
    reveal_strlit("lpr");
    assert("timer.model"@ != "fpr"@) by {
        assert(("timer.model"@).len() != ("fpr"@).len());
    }
    assert("timer.model"@ != "book.info.store"@) by {
        assert(("timer.model"@).len() != ("book.info.store"@).len());
    }
    assert("timer.model"@ != "page.history.store"@) by {
        assert(("timer.model"@).len() != ("page.history.store"@).len());
    }
    assert("timer.model"@ != "whisperstore.migration.status"@) by {
        assert(("timer.model"@).len() != ("whisperstore.migration.status"@).len());
    }
    assert("timer.model"@ != "lpr"@) by {
        assert(("timer.model"@).len() != ("lpr"@).len());
    }
    assert("fpr"@ != "book.info.store"@) by {
        assert(("fpr"@).len() != ("book.info.store"@).len());
    }
    assert("fpr"@ != "page.history.store"@) by {
        assert(("fpr"@).len() != ("page.history.store"@).len());
    }
    assert("fpr"@ != "whisperstore.migration.status"@) by {
        assert(("fpr"@).len() != ("whisperstore.migration.status"@).len());
    }
    assert("fpr"@ != "lpr"@) by {
        assert(("fpr"@)[0] != ("lpr"@)[0]);
    }
    assert("book.info.store"@ != "page.history.store"@) by {
        assert(("book.info.store"@).len() != ("page.history.store"@).len());
    }
    assert("book.info.store"@ != "whisperstore.migration.status"@) by {
        assert(("book.info.store"@).len() != ("whisperstore.migration.status"@).len());
    }
    assert("book.info.store"@ != "lpr"@) by {
        assert(("book.info.store"@).len() != ("lpr"@).len());
    }
    assert("page.history.store"@ != "whisperstore.migration.status"@) by {
        assert(("page.history.store"@).len() != ("whisperstore.migration.status"@).len());
    }
    assert("page.history.store"@ != "lpr"@) by {
        assert(("page.history.store"@).len() != ("lpr"@).len());
    }
    assert("whisperstore.migration.status"@ != "lpr"@) by {
        assert(("whisperstore.migration.status"@).len() != ("lpr"@).len());
    }
    let e1 = opt_entry(
        "timer.model"@,
        match m.timer_model {
            Some(t) => Some(enc_timer_model(t)),
            None => None,
        },
    );
    let e2 = opt_entry(
        "fpr"@,
        match m.fpr {
            Some(f) => Some(enc_fpr(f)),
            None => None,
        },
    );
    let e3 = opt_entry(
        "book.info.store"@,
        match m.book_info_store {
            Some(b) => Some(enc_book_info(b)),
            None => None,
        },
    );
    let e4 = opt_entry(
        "page.history.store"@,
        match m.page_history_store {
            Some(s) => Some(enc_page_history(s)),
            None => None,
        },
    );
    let e5 = opt_entry(
        "whisperstore.migration.status"@,
        match m.whisperstore_migration_status {
            Some(w) => Some(enc_whisper(w)),
            None => None,
        },
    );
    let e6 = opt_entry(
        "lpr"@,
        match m.lpr {
            Some(l) => Some(enc_lpr(l)),
            None => None,
        },
    );
    let a2 = e1 + e2;
    let a3 = a2 + e3;
    let a4 = a3 + e4;
    let a5 = a4 + e5;
    let a6 = a5 + e6;
    let fs = enc_timer_fields(m);
    assert(fs == a6);
    lemma_find_field_concat(a5, e6, "timer.model"@);
    lemma_find_field_concat(a4, e5, "timer.model"@);
    lemma_find_field_concat(a3, e4, "timer.model"@);
    lemma_find_field_concat(a2, e3, "timer.model"@);
    lemma_find_field_concat(e1, e2, "timer.model"@);
    lemma_find_field_opt_hit("timer.model"@, match m.timer_model {
        Some(t) => Some(enc_timer_model(t)),
        None => None,
    });
    lemma_find_field_opt_miss("fpr"@, match m.fpr {
        Some(f) => Some(enc_fpr(f)),
        None => None,
    }, "timer.model"@);
    lemma_find_field_opt_miss("book.info.store"@, match m.book_info_store {
        Some(b) => Some(enc_book_info(b)),
        None => None,
    }, "timer.model"@);
    lemma_find_field_opt_miss("page.history.store"@, match m.page_history_store {
        Some(s) => Some(enc_page_history(s)),
        None => None,
    }, "timer.model"@);
    lemma_find_field_opt_miss("whisperstore.migration.status"@, match m.whisperstore_migration_status {
        Some(w) => Some(enc_whisper(w)),
        None => None,
    }, "timer.model"@);
    lemma_find_field_opt_miss("lpr"@, match m.lpr {
        Some(l) => Some(enc_lpr(l)),
        None => None,
    }, "timer.model"@);
    lemma_find_field_concat(a5, e6, "fpr"@);
    lemma_find_field_concat(a4, e5, "fpr"@);
    lemma_find_field_concat(a3, e4, "fpr"@);
    lemma_find_field_concat(a2, e3, "fpr"@);
    lemma_find_field_concat(e1, e2, "fpr"@);
    lemma_find_field_opt_miss("timer.model"@, match m.timer_model {
        Some(t) => Some(enc_timer_model(t)),
        None => None,
    }, "fpr"@);
    lemma_find_field_opt_hit("fpr"@, match m.fpr {
        Some(f) => Some(enc_fpr(f)),
        None => None,
    });
    lemma_find_field_opt_miss("book.info.store"@, match m.book_info_store {
        Some(b) => Some(enc_book_info(b)),
        None => None,
    }, "fpr"@);
    lemma_find_field_opt_miss("page.history.store"@, match m.page_history_store {
        Some(s) => Some(enc_page_history(s)),
        None => None,
    }, "fpr"@);
    lemma_find_field_opt_miss("whisperstore.migration.status"@, match m.whisperstore_migration_status {
        Some(w) => Some(enc_whisper(w)),
        None => None,
    }, "fpr"@);
    lemma_find_field_opt_miss("lpr"@, match m.lpr {
        Some(l) => Some(enc_lpr(l)),
        None => None,
    }, "fpr"@);
    lemma_find_field_concat(a5, e6, "book.info.store"@);
    lemma_find_field_concat(a4, e5, "book.info.store"@);
    lemma_find_field_concat(a3, e4, "book.info.store"@);
    lemma_find_field_concat(a2, e3, "book.info.store"@);
    lemma_find_field_concat(e1, e2, "book.info.store"@);
    lemma_find_field_opt_miss("timer.model"@, match m.timer_model {
        Some(t) => Some(enc_timer_model(t)),
        None => None,
    }, "book.info.store"@);
    lemma_find_field_opt_miss("fpr"@, match m.fpr {
        Some(f) => Some(enc_fpr(f)),
        None => None,
    }, "book.info.store"@);
    lemma_find_field_opt_hit("book.info.store"@, match m.book_info_store {
        Some(b) => Some(enc_book_info(b)),
        None => None,
    });
    lemma_find_field_opt_miss("page.history.store"@, match m.page_history_store {
        Some(s) => Some(enc_page_history(s)),
        None => None,
    }, "book.info.store"@);
    lemma_find_field_opt_miss("whisperstore.migration.status"@, match m.whisperstore_migration_status {
        Some(w) => Some(enc_whisper(w)),
        None => None,
    }, "book.info.store"@);
    lemma_find_field_opt_miss("lpr"@, match m.lpr {
        Some(l) => Some(enc_lpr(l)),
        None => None,
    }, "book.info.store"@);
    lemma_find_field_concat(a5, e6, "page.history.store"@);
    lemma_find_field_concat(a4, e5, "page.history.store"@);
    lemma_find_field_concat(a3, e4, "page.history.store"@);
    lemma_find_field_concat(a2, e3, "page.history.store"@);
    lemma_find_field_concat(e1, e2, "page.history.store"@);
    lemma_find_field_opt_miss("timer.model"@, match m.timer_model {
        Some(t) => Some(enc_timer_model(t)),
        None => None,
    }, "page.history.store"@);
    lemma_find_field_opt_miss("fpr"@, match m.fpr {
        Some(f) => Some(enc_fpr(f)),
        None => None,
    }, "page.history.store"@);
    lemma_find_field_opt_miss("book.info.store"@, match m.book_info_store {
        Some(b) => Some(enc_book_info(b)),
        None => None,
    }, "page.history.store"@);
    lemma_find_field_opt_hit("page.history.store"@, match m.page_history_store {
        Some(s) => Some(enc_page_history(s)),
        None => None,
    });
    lemma_find_field_opt_miss("whisperstore.migration.status"@, match m.whisperstore_migration_status {
        Some(w) => Some(enc_whisper(w)),
        None => None,
    }, "page.history.store"@);
    lemma_find_field_opt_miss("lpr"@, match m.lpr {
        Some(l) => Some(enc_lpr(l)),
        None => None,
    }, "page.history.store"@);
    lemma_find_field_concat(a5, e6, "whisperstore.migration.status"@);
    lemma_find_field_concat(a4, e5, "whisperstore.migration.status"@);
    lemma_find_field_concat(a3, e4, "whisperstore.migration.status"@);
    lemma_find_field_concat(a2, e3, "whisperstore.migration.status"@);
    lemma_find_field_concat(e1, e2, "whisperstore.migration.status"@);
    lemma_find_field_opt_miss("timer.model"@, match m.timer_model {
        Some(t) => Some(enc_timer_model(t)),
        None => None,
    }, "whisperstore.migration.status"@);
    lemma_find_field_opt_miss("fpr"@, match m.fpr {
        Some(f) => Some(enc_fpr(f)),
        None => None,
    }, "whisperstore.migration.status"@);
    lemma_find_field_opt_miss("book.info.store"@, match m.book_info_store {
        Some(b) => Some(enc_book_info(b)),
        None => None,
    }, "whisperstore.migration.status"@);
    lemma_find_field_opt_miss("page.history.store"@, match m.page_history_store {
        Some(s) => Some(enc_page_history(s)),
        None => None,
    }, "whisperstore.migration.status"@);
    lemma_find_field_opt_hit("whisperstore.migration.status"@, match m.whisperstore_migration_status {
        Some(w) => Some(enc_whisper(w)),
        None => None,
    });
    lemma_find_field_opt_miss("lpr"@, match m.lpr {
        Some(l) => Some(enc_lpr(l)),
        None => None,
    }, "whisperstore.migration.status"@);
    lemma_find_field_concat(a5, e6, "lpr"@);
    lemma_find_field_concat(a4, e5, "lpr"@);
    lemma_find_field_concat(a3, e4, "lpr"@);
    lemma_find_field_concat(a2, e3, "lpr"@);
    lemma_find_field_concat(e1, e2, "lpr"@);
    lemma_find_field_opt_miss("timer.model"@, match m.timer_model {
        Some(t) => Some(enc_timer_model(t)),
        None => None,
    }, "lpr"@);
    lemma_find_field_opt_miss("fpr"@, match m.fpr {
        Some(f) => Some(enc_fpr(f)),
        None => None,
    }, "lpr"@);
    lemma_find_field_opt_miss("book.info.store"@, match m.book_info_store {
        Some(b) => Some(enc_book_info(b)),
        None => None,
    }, "lpr"@);
    lemma_find_field_opt_miss("page.history.store"@, match m.page_history_store {
        Some(s) => Some(enc_page_history(s)),
        None => None,
    }, "lpr"@);
    lemma_find_field_opt_miss("whisperstore.migration.status"@, match m.whisperstore_migration_status {
        Some(w) => Some(enc_whisper(w)),
        None => None,
    }, "lpr"@);
    lemma_find_field_opt_hit("lpr"@, match m.lpr {
        Some(l) => Some(enc_lpr(l)),
        None => None,
    });
    match m.timer_model {
        Some(t) => {
            lemma_timer_model_round_trip(t);
        },
        None => {},
    }
    match m.fpr {
        Some(f) => {
            lemma_fpr_round_trip(f);
        },
        None => {},
    }
    match m.book_info_store {
        Some(b) => {
            lemma_book_info_round_trip(b);
        },
        None => {},
    }
    match m.page_history_store {
        Some(s) => {
            lemma_page_history_round_trip(s);
        },
        None => {},
    }
    match m.whisperstore_migration_status {
        Some(w) => {
            lemma_whisper_round_trip(w);
        },
        None => {},
    }
    match m.lpr {
        Some(l) => {
            lemma_lpr_round_trip(l);
        },
        None => {},
    }
}

/// How many of a reader file's optional fields are set.
pub open spec fn reader_field_count(m: ReaderView) -> int {
    (if m.font_preferences is Some { 1int } else { 0int })
        + (if m.sync_lpr is Some { 1int } else { 0int })
        + (if m.nis_info_data is Some { 1int } else { 0int })
        + (if m.annotation_cache is Some { 1int } else { 0int })
        + (if m.apnx_key is Some { 1int } else { 0int })
        + (if m.language_store is Some { 1int } else { 0int })
        + (if m.reader_metrics is Some { 1int } else { 0int })
}

/// An encoded reader file holds exactly one named field per set model
/// field: unset fields are skipped entirely, never written as null.
pub proof fn lemma_reader_encode_skips_absent(m: ReaderView)
    ensures
        enc_reader(m) is Named,
        enc_reader(m)->Named_0.len() == reader_field_count(m),
{
}

} // verus!
