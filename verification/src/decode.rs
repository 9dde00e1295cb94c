//! Decoding: from the transport value tree back to the typed model.
//!
//! Every executable decoder is pinned to a specification function that
//! states, for every input tree, either the exact model value produced
//! or the exact error: positional records check their fixed arity,
//! scalar slots check their exact width, tags and note-type integers
//! are matched against closed sets.  A failure anywhere aborts the
//! whole enclosing decode.

use vstd::prelude::*;

use crate::model::APNXKey;
use crate::model::AnnotationData;
use crate::model::AnnotationDataView;
use crate::model::ApnxKeyView;
use crate::model::BookInfoStore;
use crate::model::DoubleBits;
use crate::model::FPR;
use crate::model::FontPreferences;
use crate::model::FontPreferencesView;
use crate::model::FprView;
use crate::model::LPR;
use crate::model::LanguageStore;
use crate::model::LanguageStoreView;
use crate::model::LprView;
use crate::model::PHRWrapper;
use crate::model::PageHistoryRecord;
use crate::model::PageHistoryView;
use crate::model::WhisperstoreMigrationStatus;
use crate::model::IntervalTree;
use crate::model::Note;
use crate::model::NoteType;
use crate::model::NoteView;
use crate::model::TimerAverageDistributionNormal;
use crate::model::TimerAverageOutliers;
use crate::model::note_type_from_code;
use crate::model::ReaderDataFile;
use crate::model::ReaderView;
use crate::model::TACWrapper;
use crate::model::TADNWrapper;
use crate::model::TAOWrapper;
use crate::model::TacView;
use crate::model::TimerAverageCalculator;
use crate::model::TimerDataFile;
use crate::model::TimerModel;
use crate::model::TimerModelView;
use crate::model::TimerView;
use crate::value::ErrorView;
use crate::value::KrdsError;
use crate::value::Value;
use crate::value::ValueKind;
use crate::value::ValueView;
use crate::value::arity_err;
use crate::value::entries_view;
use crate::value::lemma_entries_view;
use crate::value::lemma_named_view;
use crate::value::lemma_values_view;
use crate::value::named_view;
use crate::value::res_view;
use crate::value::type_err;
use crate::value::values_view;

verus! {

broadcast use {lemma_values_view, lemma_named_view, lemma_entries_view};

/// Reads a string slot.
pub open spec fn dec_str_v(v: ValueView) -> Result<Seq<char>, ErrorView> {
    if v is Str {
        Ok(v->Str_0)
    } else {
        Err(type_err(ValueKind::Str, v))
    }
}

/// Reads an 8-bit integer slot.
pub open spec fn dec_i8_v(v: ValueView) -> Result<i8, ErrorView> {
    if v is Byte {
        Ok(v->Byte_0)
    } else {
        Err(type_err(ValueKind::Byte, v))
    }
}

/// Reads a 16-bit integer slot.
pub open spec fn dec_i16_v(v: ValueView) -> Result<i16, ErrorView> {
    if v is Short {
        Ok(v->Short_0)
    } else {
        Err(type_err(ValueKind::Short, v))
    }
}

/// Reads a 32-bit integer slot.
pub open spec fn dec_i32_v(v: ValueView) -> Result<i32, ErrorView> {
    if v is Int {
        Ok(v->Int_0)
    } else {
        Err(type_err(ValueKind::Int, v))
    }
}

/// Reads a 64-bit integer slot.
pub open spec fn dec_i64_v(v: ValueView) -> Result<i64, ErrorView> {
    if v is Long {
        Ok(v->Long_0)
    } else {
        Err(type_err(ValueKind::Long, v))
    }
}

/// Reads a double slot as its raw bit pattern.
pub open spec fn dec_double_v(v: ValueView) -> Result<DoubleBits, ErrorView> {
    if v is Double {
        Ok(DoubleBits(v->Double_0))
    } else {
        Err(type_err(ValueKind::Double, v))
    }
}

/// Reads a boolean slot.
pub open spec fn dec_bool_v(v: ValueView) -> Result<bool, ErrorView> {
    if v is Bool {
        Ok(v->Bool_0)
    } else {
        Err(type_err(ValueKind::Bool, v))
    }
}

/// Decodes a string slot; fails on any other kind of slot.
pub fn decode_string(v: &Value) -> (r: Result<String, KrdsError>)
    ensures
        res_view(r) == dec_str_v(v.deep_view()),
{
    match v {
        Value::Str(s) => Ok(s.clone()),
        _ => Err(KrdsError::TypeMismatch { expected: ValueKind::Str, actual: v.kind() }),
    }
}

/// Decodes an 8-bit integer slot; fails on any other kind of slot,
/// with no widening or narrowing.
pub fn decode_i8(v: &Value) -> (r: Result<i8, KrdsError>)
    ensures
        res_view(r) == dec_i8_v(v.deep_view()),
{
    match v {
        Value::Byte(n) => Ok(*n),
        _ => Err(KrdsError::TypeMismatch { expected: ValueKind::Byte, actual: v.kind() }),
    }
}

/// Decodes a 16-bit integer slot; fails on any other kind of slot,
/// with no widening or narrowing.
pub fn decode_i16(v: &Value) -> (r: Result<i16, KrdsError>)
    ensures
        res_view(r) == dec_i16_v(v.deep_view()),
{
    match v {
        Value::Short(n) => Ok(*n),
        _ => Err(KrdsError::TypeMismatch { expected: ValueKind::Short, actual: v.kind() }),
    }
}

/// Decodes a 32-bit integer slot; fails on any other kind of slot,
/// with no widening or narrowing.
pub fn decode_i32(v: &Value) -> (r: Result<i32, KrdsError>)
    ensures
        res_view(r) == dec_i32_v(v.deep_view()),
{
    match v {
        Value::Int(n) => Ok(*n),
        _ => Err(KrdsError::TypeMismatch { expected: ValueKind::Int, actual: v.kind() }),
    }
}

/// Decodes a 64-bit integer slot; fails on any other kind of slot,
/// with no widening or narrowing.
pub fn decode_i64(v: &Value) -> (r: Result<i64, KrdsError>)
    ensures
        res_view(r) == dec_i64_v(v.deep_view()),
{
    match v {
        Value::Long(n) => Ok(*n),
        _ => Err(KrdsError::TypeMismatch { expected: ValueKind::Long, actual: v.kind() }),
    }
}

/// Decodes a double slot to its raw bit pattern; fails on any other
/// kind of slot.
pub fn decode_double_bits(v: &Value) -> (r: Result<DoubleBits, KrdsError>)
    ensures
        res_view(r) == dec_double_v(v.deep_view()),
{
    match v {
        Value::Double(bits) => Ok(DoubleBits(*bits)),
        _ => Err(KrdsError::TypeMismatch { expected: ValueKind::Double, actual: v.kind() }),
    }
}

/// Decodes a boolean slot; fails on any other kind of slot.
pub fn decode_bool(v: &Value) -> (r: Result<bool, KrdsError>)
    ensures
        res_view(r) == dec_bool_v(v.deep_view()),
{
    match v {
        Value::Bool(b) => Ok(*b),
        _ => Err(KrdsError::TypeMismatch { expected: ValueKind::Bool, actual: v.kind() }),
    }
}

/// Decodes a sequence of 32-bit integer slots in order, stopping at
/// the first failing slot and returning its error.
pub open spec fn dec_i32_list(s: Seq<ValueView>) -> Result<Seq<i32>, ErrorView>
    decreases s.len(),
{
    if s.len() == 0 {
        Ok(Seq::empty())
    } else {
        match dec_i32_list(s.drop_last()) {
            Ok(init) => match dec_i32_v(s[s.len() - 1]) {
                Ok(a) => Ok(init.push(a)),
                Err(e) => Err(e),
            },
            Err(e) => Err(e),
        }
    }
}

/// If every slot before position `i` decodes and the slot at `i`
/// fails, the whole sequence fails with that slot's error.
pub proof fn lemma_dec_i32_list_prefix_err(s: Seq<ValueView>, i: int, e: ErrorView)
    requires
        0 <= i < s.len(),
        dec_i32_list(s.take(i)) is Ok,
        dec_i32_v(s[i]) == Err::<i32, ErrorView>(e),
    ensures
        dec_i32_list(s) == Err::<Seq<i32>, ErrorView>(e),
    decreases s.len(),
{
    if s.len() == i + 1 {
        assert(s.take(i) =~= s.drop_last());
    } else {
        assert(s.drop_last().take(i) =~= s.take(i));
        lemma_dec_i32_list_prefix_err(s.drop_last(), i, e);
    }
}

/// Reads the positional fields wrapped under the given type tag;
/// fails on a non-tagged node or a different tag.
pub open spec fn dec_tagged(v: ValueView, tag: Seq<char>) -> Result<Seq<ValueView>, ErrorView> {
    if !(v is Tagged) {
        Err(type_err(ValueKind::Tagged, v))
    } else if v->Tagged_0 != tag {
        Err(ErrorView::UnknownVariantTag(v->Tagged_0))
    } else {
        Ok(v->Tagged_1)
    }
}

/// Unwraps a tagged node, checking its tag.
fn take_tagged<'a>(v: &'a Value, tag: &String) -> (r: Result<&'a Vec<Value>, KrdsError>)
    ensures
        match r {
            Ok(items) => dec_tagged(v.deep_view(), tag@) == Ok::<Seq<ValueView>, ErrorView>(
                values_view(items@),
            ),
            Err(e) => dec_tagged(v.deep_view(), tag@) == Err::<Seq<ValueView>, ErrorView>(
                e.deep_view(),
            ),
        },
{
    match v {
        Value::Tagged(t, items) => {
            if t.eq(tag) {
                Ok(items)
            } else {
                Err(KrdsError::UnknownVariantTag(t.clone()))
            }
        },
        _ => Err(KrdsError::TypeMismatch { expected: ValueKind::Tagged, actual: v.kind() }),
    }
}

/// Abstract decoding of a [`LanguageStore`].
pub open spec fn dec_language(v: ValueView) -> Result<LanguageStoreView, ErrorView> {
    if !(v is Tuple) {
        Err(type_err(ValueKind::Tuple, v))
    } else {
        let items = v->Tuple_0;
        if items.len() != 2 {
            Err(arity_err(2, items.len()))
        } else if dec_str_v(items[0]) is Err {
            Err(dec_str_v(items[0])->Err_0)
        } else if dec_i32_v(items[1]) is Err {
            Err(dec_i32_v(items[1])->Err_0)
        } else {
            Ok(LanguageStoreView(dec_str_v(items[0])->Ok_0, dec_i32_v(items[1])->Ok_0))
        }
    }
}

/// Decodes a language store.
pub fn decode_language_store(v: &Value) -> (r: Result<LanguageStore, KrdsError>)
    ensures
        res_view(r) == dec_language(v.deep_view()),
{
    let items = match v {
        Value::Tuple(items) => items,
        _ => {
            return Err(KrdsError::TypeMismatch { expected: ValueKind::Tuple, actual: v.kind() });
        },
    };
    proof {
        assert(v.deep_view() is Tuple);
        assert(v.deep_view()->Tuple_0 == values_view(items@));
        assert(values_view(items@).len() == items@.len());
    }
    if items.len() != 2 {
        return Err(KrdsError::ArityMismatch { expected: 2, actual: items.len() });
    }
    let f0 = match decode_string(&items[0]) {
        Ok(x) => x,
        Err(e) => {
            return Err(e);
        },
    };
    let f1 = match decode_i32(&items[1]) {
        Ok(x) => x,
        Err(e) => {
            return Err(e);
        },
    };
    Ok(LanguageStore(f0, f1))
}

/// Abstract decoding of an [`FPR`].
pub open spec fn dec_fpr(v: ValueView) -> Result<FprView, ErrorView> {
    if !(v is Tuple) {
        Err(type_err(ValueKind::Tuple, v))
    } else {
        let items = v->Tuple_0;
        if items.len() != 5 {
            Err(arity_err(5, items.len()))
        } else if dec_str_v(items[0]) is Err {
            Err(dec_str_v(items[0])->Err_0)
        } else if dec_i64_v(items[1]) is Err {
            Err(dec_i64_v(items[1])->Err_0)
        } else if dec_i64_v(items[2]) is Err {
            Err(dec_i64_v(items[2])->Err_0)
        } else if dec_str_v(items[3]) is Err {
            Err(dec_str_v(items[3])->Err_0)
        } else if dec_str_v(items[4]) is Err {
            Err(dec_str_v(items[4])->Err_0)
        } else {
            Ok(
                FprView(
                    dec_str_v(items[0])->Ok_0,
                    dec_i64_v(items[1])->Ok_0,
                    dec_i64_v(items[2])->Ok_0,
                    dec_str_v(items[3])->Ok_0,
                    dec_str_v(items[4])->Ok_0,
                ),
            )
        }
    }
}

/// Decodes an FPR record.
pub fn decode_fpr(v: &Value) -> (r: Result<FPR, KrdsError>)
    ensures
        res_view(r) == dec_fpr(v.deep_view()),
{
    let items = match v {
        Value::Tuple(items) => items,
        _ => {
            return Err(KrdsError::TypeMismatch { expected: ValueKind::Tuple, actual: v.kind() });
        },
    };
    proof {
        assert(v.deep_view() is Tuple);
        assert(v.deep_view()->Tuple_0 == values_view(items@));
        assert(values_view(items@).len() == items@.len());
    }
    if items.len() != 5 {
        return Err(KrdsError::ArityMismatch { expected: 5, actual: items.len() });
    }
    let f0 = match decode_string(&items[0]) {
        Ok(x) => x,
        Err(e) => {
            return Err(e);
        },
    };
    let f1 = match decode_i64(&items[1]) {
        Ok(x) => x,
        Err(e) => {
            return Err(e);
        },
    };
    let f2 = match decode_i64(&items[2]) {
        Ok(x) => x,
        Err(e) => {
            return Err(e);
        },
    };
    let f3 = match decode_string(&items[3]) {
        Ok(x) => x,
        Err(e) => {
            return Err(e);
        },
    };
    let f4 = match decode_string(&items[4]) {
        Ok(x) => x,
        Err(e) => {
            return Err(e);
        },
    };
    Ok(FPR(f0, f1, f2, f3, f4))
}

/// Abstract decoding of an [`LPR`].
pub open spec fn dec_lpr(v: ValueView) -> Result<LprView, ErrorView> {
    if !(v is Tuple) {
        Err(type_err(ValueKind::Tuple, v))
    } else {
        let items = v->Tuple_0;
        if items.len() != 3 {
            Err(arity_err(3, items.len()))
        } else if dec_i8_v(items[0]) is Err {
            Err(dec_i8_v(items[0])->Err_0)
        } else if dec_str_v(items[1]) is Err {
            Err(dec_str_v(items[1])->Err_0)
        } else if dec_i64_v(items[2]) is Err {
            Err(dec_i64_v(items[2])->Err_0)
        } else {
            Ok(
                LprView(
                    dec_i8_v(items[0])->Ok_0,
                    dec_str_v(items[1])->Ok_0,
                    dec_i64_v(items[2])->Ok_0,
                ),
            )
        }
    }
}

/// Decodes an LPR record.
pub fn decode_lpr(v: &Value) -> (r: Result<LPR, KrdsError>)
    ensures
        res_view(r) == dec_lpr(v.deep_view()),
{
    let items = match v {
        Value::Tuple(items) => items,
        _ => {
            return Err(KrdsError::TypeMismatch { expected: ValueKind::Tuple, actual: v.kind() });
        },
    };
    proof {
        assert(v.deep_view() is Tuple);
        assert(v.deep_view()->Tuple_0 == values_view(items@));
        assert(values_view(items@).len() == items@.len());
    }
    if items.len() != 3 {
        return Err(KrdsError::ArityMismatch { expected: 3, actual: items.len() });
    }
    let f0 = match decode_i8(&items[0]) {
        Ok(x) => x,
        Err(e) => {
            return Err(e);
        },
    };
    let f1 = match decode_string(&items[1]) {
        Ok(x) => x,
        Err(e) => {
            return Err(e);
        },
    };
    let f2 = match decode_i64(&items[2]) {
        Ok(x) => x,
        Err(e) => {
            return Err(e);
        },
    };
    Ok(LPR(f0, f1, f2))
}

/// Abstract decoding of a [`WhisperstoreMigrationStatus`].
pub open spec fn dec_whisper(v: ValueView) -> Result<WhisperstoreMigrationStatus, ErrorView> {
    if !(v is Tuple) {
        Err(type_err(ValueKind::Tuple, v))
    } else {
        let items = v->Tuple_0;
        if items.len() != 2 {
            Err(arity_err(2, items.len()))
        } else if dec_bool_v(items[0]) is Err {
            Err(dec_bool_v(items[0])->Err_0)
        } else if dec_bool_v(items[1]) is Err {
            Err(dec_bool_v(items[1])->Err_0)
        } else {
            Ok(
                WhisperstoreMigrationStatus(
                    dec_bool_v(items[0])->Ok_0,
                    dec_bool_v(items[1])->Ok_0,
                ),
            )
        }
    }
}

/// Decodes a migration-status pair.
pub fn decode_whisperstore_migration_status(v: &Value) -> (r: Result<
    WhisperstoreMigrationStatus,
    KrdsError,
>)
    ensures
        res_view(r) == dec_whisper(v.deep_view()),
{
    let items = match v {
        Value::Tuple(items) => items,
        _ => {
            return Err(KrdsError::TypeMismatch { expected: ValueKind::Tuple, actual: v.kind() });
        },
    };
    proof {
        assert(v.deep_view() is Tuple);
        assert(v.deep_view()->Tuple_0 == values_view(items@));
        assert(values_view(items@).len() == items@.len());
    }
    if items.len() != 2 {
        return Err(KrdsError::ArityMismatch { expected: 2, actual: items.len() });
    }
    let f0 = match decode_bool(&items[0]) {
        Ok(x) => x,
        Err(e) => {
            return Err(e);
        },
    };
    let f1 = match decode_bool(&items[1]) {
        Ok(x) => x,
        Err(e) => {
            return Err(e);
        },
    };
    Ok(WhisperstoreMigrationStatus(f0, f1))
}

/// Abstract decoding of a [`BookInfoStore`].
pub open spec fn dec_book_info(v: ValueView) -> Result<BookInfoStore, ErrorView> {
    if !(v is Tuple) {
        Err(type_err(ValueKind::Tuple, v))
    } else {
        let items = v->Tuple_0;
        if items.len() != 2 {
            Err(arity_err(2, items.len()))
        } else if dec_i64_v(items[0]) is Err {
            Err(dec_i64_v(items[0])->Err_0)
        } else if dec_double_v(items[1]) is Err {
            Err(dec_double_v(items[1])->Err_0)
        } else {
            Ok(BookInfoStore(dec_i64_v(items[0])->Ok_0, dec_double_v(items[1])->Ok_0))
        }
    }
}

/// Decodes a book-info summary.
pub fn decode_book_info_store(v: &Value) -> (r: Result<BookInfoStore, KrdsError>)
    ensures
        res_view(r) == dec_book_info(v.deep_view()),
{
    let items = match v {
        Value::Tuple(items) => items,
        _ => {
            return Err(KrdsError::TypeMismatch { expected: ValueKind::Tuple, actual: v.kind() });
        },
    };
    proof {
        assert(v.deep_view() is Tuple);
        assert(v.deep_view()->Tuple_0 == values_view(items@));
        assert(values_view(items@).len() == items@.len());
    }
    if items.len() != 2 {
        return Err(KrdsError::ArityMismatch { expected: 2, actual: items.len() });
    }
    let f0 = match decode_i64(&items[0]) {
        Ok(x) => x,
        Err(e) => {
            return Err(e);
        },
    };
    let f1 = match decode_double_bits(&items[1]) {
        Ok(x) => x,
        Err(e) => {
            return Err(e);
        },
    };
    Ok(BookInfoStore(f0, f1))
}

/// Abstract decoding of a [`PageHistoryRecord`] from under its
/// wrapper tag.
pub open spec fn dec_phr(v: ValueView) -> Result<PageHistoryView, ErrorView> {
    match dec_tagged(v, "page.history.record"@) {
        Err(e) => Err(e),
        Ok(items) => {
            if items.len() != 2 {
                Err(arity_err(2, items.len()))
            } else if dec_str_v(items[0]) is Err {
                Err(dec_str_v(items[0])->Err_0)
            } else if dec_i64_v(items[1]) is Err {
                Err(dec_i64_v(items[1])->Err_0)
            } else {
                Ok(PageHistoryView(dec_str_v(items[0])->Ok_0, dec_i64_v(items[1])->Ok_0))
            }
        },
    }
}

/// Decodes one page-history record from under its wrapper tag.
pub fn decode_page_history_record(v: &Value) -> (r: Result<PageHistoryRecord, KrdsError>)
    ensures
        res_view(r) == dec_phr(v.deep_view()),
{
    let items = match take_tagged(v, &"page.history.record".to_owned()) {
        Ok(items) => items,
        Err(e) => {
            return Err(e);
        },
    };
    if items.len() != 2 {
        return Err(KrdsError::ArityMismatch { expected: 2, actual: items.len() });
    }
    let f0 = match decode_string(&items[0]) {
        Ok(x) => x,
        Err(e) => {
            return Err(e);
        },
    };
    let f1 = match decode_i64(&items[1]) {
        Ok(x) => x,
        Err(e) => {
            return Err(e);
        },
    };
    Ok(PageHistoryRecord(f0, f1))
}

/// Abstract decoding of [`FontPreferences`]: exactly 16 positional
/// fields of the fixed kinds.
pub open spec fn dec_font(v: ValueView) -> Result<FontPreferencesView, ErrorView> {
    if !(v is Tuple) {
        Err(type_err(ValueKind::Tuple, v))
    } else {
        let items = v->Tuple_0;
        if items.len() != 16 {
            Err(arity_err(16, items.len()))
        } else if dec_str_v(items[0]) is Err {
            Err(dec_str_v(items[0])->Err_0)
        } else if dec_i32_v(items[1]) is Err {
            Err(dec_i32_v(items[1])->Err_0)
        } else if dec_i32_v(items[2]) is Err {
            Err(dec_i32_v(items[2])->Err_0)
        } else if dec_i32_v(items[3]) is Err {
            Err(dec_i32_v(items[3])->Err_0)
        } else if dec_i32_v(items[4]) is Err {
            Err(dec_i32_v(items[4])->Err_0)
        } else if dec_i32_v(items[5]) is Err {
            Err(dec_i32_v(items[5])->Err_0)
        } else if dec_i32_v(items[6]) is Err {
            Err(dec_i32_v(items[6])->Err_0)
        } else if dec_i32_v(items[7]) is Err {
            Err(dec_i32_v(items[7])->Err_0)
        } else if dec_i32_v(items[8]) is Err {
            Err(dec_i32_v(items[8])->Err_0)
        } else if dec_i32_v(items[9]) is Err {
            Err(dec_i32_v(items[9])->Err_0)
        } else if dec_str_v(items[10]) is Err {
            Err(dec_str_v(items[10])->Err_0)
        } else if dec_i32_v(items[11]) is Err {
            Err(dec_i32_v(items[11])->Err_0)
        } else if dec_str_v(items[12]) is Err {
            Err(dec_str_v(items[12])->Err_0)
        } else if dec_bool_v(items[13]) is Err {
            Err(dec_bool_v(items[13])->Err_0)
        } else if dec_str_v(items[14]) is Err {
            Err(dec_str_v(items[14])->Err_0)
        } else if dec_i32_v(items[15]) is Err {
            Err(dec_i32_v(items[15])->Err_0)
        } else {
            Ok(
                FontPreferencesView(
                    dec_str_v(items[0])->Ok_0,
                    dec_i32_v(items[1])->Ok_0,
                    dec_i32_v(items[2])->Ok_0,
                    dec_i32_v(items[3])->Ok_0,
                    dec_i32_v(items[4])->Ok_0,
                    dec_i32_v(items[5])->Ok_0,
                    dec_i32_v(items[6])->Ok_0,
                    dec_i32_v(items[7])->Ok_0,
                    dec_i32_v(items[8])->Ok_0,
                    dec_i32_v(items[9])->Ok_0,
                    dec_str_v(items[10])->Ok_0,
                    dec_i32_v(items[11])->Ok_0,
                    dec_str_v(items[12])->Ok_0,
                    dec_bool_v(items[13])->Ok_0,
                    dec_str_v(items[14])->Ok_0,
                    dec_i32_v(items[15])->Ok_0,
                ),
            )
        }
    }
}

/// Decodes the font preferences: exactly 16 positional entries, else
/// the decode fails with an arity error.
pub fn decode_font_preferences(v: &Value) -> (r: Result<FontPreferences, KrdsError>)
    ensures
        res_view(r) == dec_font(v.deep_view()),
{
    let items = match v {
        Value::Tuple(items) => items,
        _ => {
            return Err(KrdsError::TypeMismatch { expected: ValueKind::Tuple, actual: v.kind() });
        },
    };
    proof {
        assert(v.deep_view() is Tuple);
        assert(v.deep_view()->Tuple_0 == values_view(items@));
        assert(values_view(items@).len() == items@.len());
    }
    if items.len() != 16 {
        return Err(KrdsError::ArityMismatch { expected: 16, actual: items.len() });
    }
    let f0 = match decode_string(&items[0]) {
        Ok(x) => x,
        Err(e) => {
            return Err(e);
        },
    };
    let f1 = match decode_i32(&items[1]) {
        Ok(x) => x,
        Err(e) => {
            return Err(e);
        },
    };
    let f2 = match decode_i32(&items[2]) {
        Ok(x) => x,
        Err(e) => {
            return Err(e);
        },
    };
    let f3 = match decode_i32(&items[3]) {
        Ok(x) => x,
        Err(e) => {
            return Err(e);
        },
    };
    let f4 = match decode_i32(&items[4]) {
        Ok(x) => x,
        Err(e) => {
            return Err(e);
        },
    };
    let f5 = match decode_i32(&items[5]) {
        Ok(x) => x,
        Err(e) => {
            return Err(e);
        },
    };
    let f6 = match decode_i32(&items[6]) {
        Ok(x) => x,
        Err(e) => {
            return Err(e);
        },
    };
    let f7 = match decode_i32(&items[7]) {
        Ok(x) => x,
        Err(e) => {
            return Err(e);
        },
    };
    let f8 = match decode_i32(&items[8]) {
        Ok(x) => x,
        Err(e) => {
            return Err(e);
        },
    };
    let f9 = match decode_i32(&items[9]) {
        Ok(x) => x,
        Err(e) => {
            return Err(e);
        },
    };
    let f10 = match decode_string(&items[10]) {
        Ok(x) => x,
        Err(e) => {
            return Err(e);
        },
    };
    let f11 = match decode_i32(&items[11]) {
        Ok(x) => x,
        Err(e) => {
            return Err(e);
        },
    };
    let f12 = match decode_string(&items[12]) {
        Ok(x) => x,
        Err(e) => {
            return Err(e);
        },
    };
    let f13 = match decode_bool(&items[13]) {
        Ok(x) => x,
        Err(e) => {
            return Err(e);
        },
    };
    let f14 = match decode_string(&items[14]) {
        Ok(x) => x,
        Err(e) => {
            return Err(e);
        },
    };
    let f15 = match decode_i32(&items[15]) {
        Ok(x) => x,
        Err(e) => {
            return Err(e);
        },
    };
    Ok(
        FontPreferences(
            f0,
            f1,
            f2,
            f3,
            f4,
            f5,
            f6,
            f7,
            f8,
            f9,
            f10,
            f11,
            f12,
            f13,
            f14,
            f15,
        ),
    )
}

/// Abstract decoding of a positional record of 32-bit integers.
pub open spec fn dec_int_seq(v: ValueView) -> Result<Seq<i32>, ErrorView> {
    if !(v is Tuple) {
        Err(type_err(ValueKind::Tuple, v))
    } else {
        dec_i32_list(v->Tuple_0)
    }
}

/// Decodes a positional record of 32-bit integers.
pub fn decode_int_list(v: &Value) -> (r: Result<Vec<i32>, KrdsError>)
    ensures
        res_view(r) == dec_int_seq(v.deep_view()),
{
    let items = match v {
        Value::Tuple(items) => items,
        _ => {
            return Err(KrdsError::TypeMismatch { expected: ValueKind::Tuple, actual: v.kind() });
        },
    };
    proof {
        assert(v.deep_view() is Tuple);
        assert(v.deep_view()->Tuple_0 == values_view(items@));
        assert(values_view(items@).len() == items@.len());
    }
    let ghost s = values_view(items@);
    let mut out: Vec<i32> = Vec::new();
    proof {
        assert(s.take(0) =~= Seq::<ValueView>::empty());
        assert(out.deep_view() =~= Seq::<i32>::empty());
    }
    let mut i: usize = 0;
    while i < items.len()
        invariant
            i <= items.len(),
            s == values_view(items@),
            v.deep_view() is Tuple,
            v.deep_view()->Tuple_0 == s,
            dec_i32_list(s.take(i as int)) == Ok::<Seq<i32>, ErrorView>(out.deep_view()),
        decreases items.len() - i,
    {
        let ghost prev = out.deep_view();
        proof {
            assert(s[i as int] == items@[i as int].view_rec());
        }
        match decode_i32(&items[i]) {
            Ok(n) => {
                out.push(n);
                proof {
                    assert(out.deep_view() =~= prev.push(n));
                    assert(s.take(i + 1).drop_last() =~= s.take(i as int));
                    assert(s.take(i + 1)[i as int] == s[i as int]);
                    assert(dec_i32_list(s.take(i + 1)) == Ok::<Seq<i32>, ErrorView>(
                        out.deep_view(),
                    ));
                }
            },
            Err(e) => {
                proof {
                    lemma_dec_i32_list_prefix_err(s, i as int, e.deep_view());
                }
                return Err(e);
            },
        }
        i = i + 1;
    }
    proof {
        assert(s.take(items@.len() as int) =~= s);
    }
    Ok(out)
}

/// Abstract decoding of an [`APNXKey`]: exactly 8 positional fields
/// of the fixed kinds.
pub open spec fn dec_apnx(v: ValueView) -> Result<ApnxKeyView, ErrorView> {
    if !(v is Tuple) {
        Err(type_err(ValueKind::Tuple, v))
    } else {
        let items = v->Tuple_0;
        if items.len() != 8 {
            Err(arity_err(8, items.len()))
        } else if dec_str_v(items[0]) is Err {
            Err(dec_str_v(items[0])->Err_0)
        } else if dec_str_v(items[1]) is Err {
            Err(dec_str_v(items[1])->Err_0)
        } else if dec_bool_v(items[2]) is Err {
            Err(dec_bool_v(items[2])->Err_0)
        } else if dec_int_seq(items[3]) is Err {
            Err(dec_int_seq(items[3])->Err_0)
        } else if dec_i32_v(items[4]) is Err {
            Err(dec_i32_v(items[4])->Err_0)
        } else if dec_i32_v(items[5]) is Err {
            Err(dec_i32_v(items[5])->Err_0)
        } else if dec_i32_v(items[6]) is Err {
            Err(dec_i32_v(items[6])->Err_0)
        } else if dec_str_v(items[7]) is Err {
            Err(dec_str_v(items[7])->Err_0)
        } else {
            Ok(
                ApnxKeyView(
                    dec_str_v(items[0])->Ok_0,
                    dec_str_v(items[1])->Ok_0,
                    dec_bool_v(items[2])->Ok_0,
                    dec_int_seq(items[3])->Ok_0,
                    dec_i32_v(items[4])->Ok_0,
                    dec_i32_v(items[5])->Ok_0,
                    dec_i32_v(items[6])->Ok_0,
                    dec_str_v(items[7])->Ok_0,
                ),
            )
        }
    }
}

/// Decodes an APNX key: exactly 8 positional entries, else the decode
/// fails with an arity error.
pub fn decode_apnx_key(v: &Value) -> (r: Result<APNXKey, KrdsError>)
    ensures
        res_view(r) == dec_apnx(v.deep_view()),
{
    let items = match v {
        Value::Tuple(items) => items,
        _ => {
            return Err(KrdsError::TypeMismatch { expected: ValueKind::Tuple, actual: v.kind() });
        },
    };
    proof {
        assert(v.deep_view() is Tuple);
        assert(v.deep_view()->Tuple_0 == values_view(items@));
        assert(values_view(items@).len() == items@.len());
    }
    if items.len() != 8 {
        return Err(KrdsError::ArityMismatch { expected: 8, actual: items.len() });
    }
    let f0 = match decode_string(&items[0]) {
        Ok(x) => x,
        Err(e) => {
            return Err(e);
        },
    };
    let f1 = match decode_string(&items[1]) {
        Ok(x) => x,
        Err(e) => {
            return Err(e);
        },
    };
    let f2 = match decode_bool(&items[2]) {
        Ok(x) => x,
        Err(e) => {
            return Err(e);
        },
    };
    let f3 = match decode_int_list(&items[3]) {
        Ok(x) => x,
        Err(e) => {
            return Err(e);
        },
    };
    let f4 = match decode_i32(&items[4]) {
        Ok(x) => x,
        Err(e) => {
            return Err(e);
        },
    };
    let f5 = match decode_i32(&items[5]) {
        Ok(x) => x,
        Err(e) => {
            return Err(e);
        },
    };
    let f6 = match decode_i32(&items[6]) {
        Ok(x) => x,
        Err(e) => {
            return Err(e);
        },
    };
    let f7 = match decode_string(&items[7]) {
        Ok(x) => x,
        Err(e) => {
            return Err(e);
        },
    };
    proof {
        assert(f3.deep_view() =~= f3@);
    }
    Ok(APNXKey(f0, f1, f2, f3, f4, f5, f6, f7))
}


/// Abstract decoding of an annotation payload: 5 required positional
/// fields and an optional trailing payload.
pub open spec fn dec_annotation_fields(items: Seq<ValueView>) -> Result<
    AnnotationDataView,
    ErrorView,
> {
    if items.len() != 5 && items.len() != 6 {
        Err(arity_err(5, items.len()))
    } else if dec_str_v(items[0]) is Err {
        Err(dec_str_v(items[0])->Err_0)
    } else if dec_str_v(items[1]) is Err {
        Err(dec_str_v(items[1])->Err_0)
    } else if dec_i64_v(items[2]) is Err {
        Err(dec_i64_v(items[2])->Err_0)
    } else if dec_i64_v(items[3]) is Err {
        Err(dec_i64_v(items[3])->Err_0)
    } else if dec_str_v(items[4]) is Err {
        Err(dec_str_v(items[4])->Err_0)
    } else if items.len() == 6 && dec_str_v(items[5]) is Err {
        Err(dec_str_v(items[5])->Err_0)
    } else {
        Ok(
            AnnotationDataView(
                dec_str_v(items[0])->Ok_0,
                dec_str_v(items[1])->Ok_0,
                dec_i64_v(items[2])->Ok_0,
                dec_i64_v(items[3])->Ok_0,
                dec_str_v(items[4])->Ok_0,
                if items.len() == 6 {
                    Some(dec_str_v(items[5])->Ok_0)
                } else {
                    None
                },
            ),
        )
    }
}

/// Decodes an annotation payload from its positional fields; the
/// trailing payload is taken as absent when the source omits it.
pub fn decode_annotation_data(items: &Vec<Value>) -> (r: Result<AnnotationData, KrdsError>)
    ensures
        res_view(r) == dec_annotation_fields(values_view(items@)),
{
    if items.len() != 5 && items.len() != 6 {
        return Err(KrdsError::ArityMismatch { expected: 5, actual: items.len() });
    }
    let f0 = match decode_string(&items[0]) {
        Ok(x) => x,
        Err(e) => {
            return Err(e);
        },
    };
    let f1 = match decode_string(&items[1]) {
        Ok(x) => x,
        Err(e) => {
            return Err(e);
        },
    };
    let f2 = match decode_i64(&items[2]) {
        Ok(x) => x,
        Err(e) => {
            return Err(e);
        },
    };
    let f3 = match decode_i64(&items[3]) {
        Ok(x) => x,
        Err(e) => {
            return Err(e);
        },
    };
    let f4 = match decode_string(&items[4]) {
        Ok(x) => x,
        Err(e) => {
            return Err(e);
        },
    };
    let f5 = if items.len() == 6 {
        match decode_string(&items[5]) {
            Ok(x) => Some(x),
            Err(e) => {
                return Err(e);
            },
        }
    } else {
        None
    };
    Ok(AnnotationData(f0, f1, f2, f3, f4, f5))
}

/// Abstract decoding of a [`Note`]: variant dispatch over the closed
/// set of five annotation tags; any other tag fails.
pub open spec fn dec_note(v: ValueView) -> Result<NoteView, ErrorView> {
    if !(v is Tagged) {
        Err(type_err(ValueKind::Tagged, v))
    } else {
        let tag = v->Tagged_0;
        let fields = v->Tagged_1;
        if tag == "annotation.personal.bookmark"@ {
            match dec_annotation_fields(fields) {
                Ok(d) => Ok(NoteView::Bookmark(d)),
                Err(e) => Err(e),
            }
        } else if tag == "annotation.personal.highlight"@ {
            match dec_annotation_fields(fields) {
                Ok(d) => Ok(NoteView::Highlight(d)),
                Err(e) => Err(e),
            }
        } else if tag == "annotation.personal.note"@ {
            match dec_annotation_fields(fields) {
                Ok(d) => Ok(NoteView::Typed(d)),
                Err(e) => Err(e),
            }
        } else if tag == "annotation.personal.handwritten_note"@ {
            match dec_annotation_fields(fields) {
                Ok(d) => Ok(NoteView::Handwritten(d)),
                Err(e) => Err(e),
            }
        } else if tag == "annotation.personal.sticky_note"@ {
            match dec_annotation_fields(fields) {
                Ok(d) => Ok(NoteView::Sticky(d)),
                Err(e) => Err(e),
            }
        } else {
            Err(ErrorView::UnknownVariantTag(tag))
        }
    }
}

/// Decodes a note by matching its tag against the closed variant set;
/// an unrecognized tag fails, carrying the tag.
pub fn decode_note(v: &Value) -> (r: Result<Note, KrdsError>)
    ensures
        res_view(r) == dec_note(v.deep_view()),
{
    let (tag, fields) = match v {
        Value::Tagged(tag, fields) => (tag, fields),
        _ => {
            return Err(KrdsError::TypeMismatch { expected: ValueKind::Tagged, actual: v.kind() });
        },
    };
    if tag.eq(&"annotation.personal.bookmark".to_owned()) {
        match decode_annotation_data(fields) {
            Ok(d) => Ok(Note::Bookmark(d)),
            Err(e) => Err(e),
        }
    } else if tag.eq(&"annotation.personal.highlight".to_owned()) {
        match decode_annotation_data(fields) {
            Ok(d) => Ok(Note::Highlight(d)),
            Err(e) => Err(e),
        }
    } else if tag.eq(&"annotation.personal.note".to_owned()) {
        match decode_annotation_data(fields) {
            Ok(d) => Ok(Note::Typed(d)),
            Err(e) => Err(e),
        }
    } else if tag.eq(&"annotation.personal.handwritten_note".to_owned()) {
        match decode_annotation_data(fields) {
            Ok(d) => Ok(Note::Handwritten(d)),
            Err(e) => Err(e),
        }
    } else if tag.eq(&"annotation.personal.sticky_note".to_owned()) {
        match decode_annotation_data(fields) {
            Ok(d) => Ok(Note::Sticky(d)),
            Err(e) => Err(e),
        }
    } else {
        Err(KrdsError::UnknownVariantTag(tag.clone()))
    }
}

/// Decodes a sequence in order with the element decoder, stopping at
/// the first failing element and returning its error.
pub open spec fn dec_note_seq(s: Seq<ValueView>) -> Result<Seq<NoteView>, ErrorView>
    decreases s.len(),
{
    if s.len() == 0 {
        Ok(Seq::empty())
    } else {
        match dec_note_seq(s.drop_last()) {
            Ok(init) => match dec_note(s[s.len() - 1]) {
                Ok(a) => Ok(init.push(a)),
                Err(e) => Err(e),
            },
            Err(e) => Err(e),
        }
    }
}

/// If every element before position `i` decodes and the element at
/// `i` fails, the whole sequence fails with that element's error.
pub proof fn lemma_dec_note_seq_prefix_err(s: Seq<ValueView>, i: int, e: ErrorView)
    requires
        0 <= i < s.len(),
        dec_note_seq(s.take(i)) is Ok,
        dec_note(s[i]) == Err::<NoteView, ErrorView>(e),
    ensures
        dec_note_seq(s) == Err::<Seq<NoteView>, ErrorView>(e),
    decreases s.len(),
{
    if s.len() == i + 1 {
        assert(s.take(i) =~= s.drop_last());
    } else {
        assert(s.drop_last().take(i) =~= s.take(i));
        lemma_dec_note_seq_prefix_err(s.drop_last(), i, e);
    }
}

/// Decodes a sequence in order with the element decoder, stopping at
/// the first failing element and returning its error.
pub open spec fn dec_phr_seq(s: Seq<ValueView>) -> Result<Seq<PageHistoryView>, ErrorView>
    decreases s.len(),
{
    if s.len() == 0 {
        Ok(Seq::empty())
    } else {
        match dec_phr_seq(s.drop_last()) {
            Ok(init) => match dec_phr(s[s.len() - 1]) {
                Ok(a) => Ok(init.push(a)),
                Err(e) => Err(e),
            },
            Err(e) => Err(e),
        }
    }
}

/// If every element before position `i` decodes and the element at
/// `i` fails, the whole sequence fails with that element's error.
pub proof fn lemma_dec_phr_seq_prefix_err(s: Seq<ValueView>, i: int, e: ErrorView)
    requires
        0 <= i < s.len(),
        dec_phr_seq(s.take(i)) is Ok,
        dec_phr(s[i]) == Err::<PageHistoryView, ErrorView>(e),
    ensures
        dec_phr_seq(s) == Err::<Seq<PageHistoryView>, ErrorView>(e),
    decreases s.len(),
{
    if s.len() == i + 1 {
        assert(s.take(i) =~= s.drop_last());
    } else {
        assert(s.drop_last().take(i) =~= s.take(i));
        lemma_dec_phr_seq_prefix_err(s.drop_last(), i, e);
    }
}

/// Abstract decoding of the interval-tree wrapper: the ordered
/// annotation sequence under its fixed tag.
pub open spec fn dec_tree(v: ValueView) -> Result<Seq<NoteView>, ErrorView> {
    match dec_tagged(v, "saved.avl.interval.tree"@) {
        Ok(fields) => dec_note_seq(fields),
        Err(e) => Err(e),
    }
}

/// Decodes the interval-tree wrapper: an ordered annotation list, in
/// source order, never sorted or deduplicated.
pub fn decode_interval_tree(v: &Value) -> (r: Result<IntervalTree<Note>, KrdsError>)
    ensures
        res_view(r) == dec_tree(v.deep_view()),
{
    let items = match take_tagged(v, &"saved.avl.interval.tree".to_owned()) {
        Ok(items) => items,
        Err(e) => {
            return Err(e);
        },
    };
    let ghost s = values_view(items@);
    let mut out: Vec<Note> = Vec::new();
    proof {
        assert(s.take(0) =~= Seq::<ValueView>::empty());
        assert(out.deep_view() =~= Seq::<NoteView>::empty());
    }
    let mut i: usize = 0;
    while i < items.len()
        invariant
            i <= items.len(),
            s == values_view(items@),
            dec_tree(v.deep_view()) == dec_note_seq(s),
            dec_note_seq(s.take(i as int)) == Ok::<Seq<NoteView>, ErrorView>(out.deep_view()),
        decreases items.len() - i,
    {
        let ghost prev = out.deep_view();
        proof {
            assert(s[i as int] == items@[i as int].view_rec());
        }
        match decode_note(&items[i]) {
            Ok(n) => {
                let ghost nd = n.deep_view();
                out.push(n);
                proof {
                    assert(out.deep_view() =~= prev.push(nd));
                    assert(s.take(i + 1).drop_last() =~= s.take(i as int));
                    assert(s.take(i + 1)[i as int] == s[i as int]);
                    assert(dec_note_seq(s.take(i + 1)) == Ok::<Seq<NoteView>, ErrorView>(
                        out.deep_view(),
                    ));
                }
            },
            Err(e) => {
                proof {
                    lemma_dec_note_seq_prefix_err(s, i as int, e.deep_view());
                }
                return Err(e);
            },
        }
        i = i + 1;
    }
    proof {
        assert(s.take(items@.len() as int) =~= s);
    }
    Ok(IntervalTree(out))
}

/// Abstract decoding of one annotation-cache entry: a note-type key
/// under strict range validation, then the entry's annotation list.
pub open spec fn dec_cache_entry(kv: (ValueView, ValueView)) -> Result<
    (NoteType, Seq<NoteView>),
    ErrorView,
> {
    match dec_i32_v(kv.0) {
        Err(e) => Err(e),
        Ok(code) => match note_type_from_code(code) {
            Ok(t) => match dec_tree(kv.1) {
                Ok(notes) => Ok((t, notes)),
                Err(e) => Err(e),
            },
            Err(_) => Err(ErrorView::UnknownEnumValue(code)),
        },
    }
}

/// Decodes a sequence in order with the element decoder, stopping at
/// the first failing element and returning its error.
pub open spec fn dec_cache_seq(s: Seq<(ValueView, ValueView)>) -> Result<Seq<(NoteType, Seq<NoteView>)>, ErrorView>
    decreases s.len(),
{
    if s.len() == 0 {
        Ok(Seq::empty())
    } else {
        match dec_cache_seq(s.drop_last()) {
            Ok(init) => match dec_cache_entry(s[s.len() - 1]) {
                Ok(a) => Ok(init.push(a)),
                Err(e) => Err(e),
            },
            Err(e) => Err(e),
        }
    }
}

/// If every element before position `i` decodes and the element at
/// `i` fails, the whole sequence fails with that element's error.
pub proof fn lemma_dec_cache_seq_prefix_err(s: Seq<(ValueView, ValueView)>, i: int, e: ErrorView)
    requires
        0 <= i < s.len(),
        dec_cache_seq(s.take(i)) is Ok,
        dec_cache_entry(s[i]) == Err::<(NoteType, Seq<NoteView>), ErrorView>(e),
    ensures
        dec_cache_seq(s) == Err::<Seq<(NoteType, Seq<NoteView>)>, ErrorView>(e),
    decreases s.len(),
{
    if s.len() == i + 1 {
        assert(s.take(i) =~= s.drop_last());
    } else {
        assert(s.drop_last().take(i) =~= s.take(i));
        lemma_dec_cache_seq_prefix_err(s.drop_last(), i, e);
    }
}

/// Abstract decoding of the annotation cache: every entry of the
/// mapping, in source order.
pub open spec fn dec_cache(v: ValueView) -> Result<Seq<(NoteType, Seq<NoteView>)>, ErrorView> {
    if !(v is Mapping) {
        Err(type_err(ValueKind::Mapping, v))
    } else {
        dec_cache_seq(v->Mapping_0)
    }
}

/// Decodes the annotation cache, preserving entry order and, within
/// each entry, annotation order.
pub fn decode_annotation_cache(v: &Value) -> (r: Result<
    Vec<(NoteType, IntervalTree<Note>)>,
    KrdsError,
>)
    ensures
        res_view(r) == dec_cache(v.deep_view()),
{
    let entries = match v {
        Value::Mapping(entries) => entries,
        _ => {
            return Err(KrdsError::TypeMismatch { expected: ValueKind::Mapping, actual: v.kind() });
        },
    };
    proof {
        assert(v.deep_view() is Mapping);
        assert(v.deep_view()->Mapping_0 == entries_view(entries@));
    }
    let ghost s = entries_view(entries@);
    let mut out: Vec<(NoteType, IntervalTree<Note>)> = Vec::new();
    proof {
        assert(s.take(0) =~= Seq::<(ValueView, ValueView)>::empty());
        assert(out.deep_view() =~= Seq::<(NoteType, Seq<NoteView>)>::empty());
    }
    let mut i: usize = 0;
    while i < entries.len()
        invariant
            i <= entries.len(),
            s == entries_view(entries@),
            v.deep_view() is Mapping,
            v.deep_view()->Mapping_0 == s,
            dec_cache_seq(s.take(i as int)) == Ok::<Seq<(NoteType, Seq<NoteView>)>, ErrorView>(
                out.deep_view(),
            ),
        decreases entries.len() - i,
    {
        let ghost prev = out.deep_view();
        proof {
            assert(s[i as int] == (
                entries@[i as int].0.view_rec(),
                entries@[i as int].1.view_rec(),
            ));
        }
        let code = match decode_i32(&entries[i].0) {
            Ok(c) => c,
            Err(e) => {
                proof {
                    lemma_dec_cache_seq_prefix_err(s, i as int, e.deep_view());
                }
                return Err(e);
            },
        };
        let key = match NoteType::try_from(code) {
            Ok(t) => t,
            Err(_) => {
                let e = KrdsError::UnknownEnumValue(code);
                proof {
                    lemma_dec_cache_seq_prefix_err(s, i as int, e.deep_view());
                }
                return Err(e);
            },
        };
        let tree = match decode_interval_tree(&entries[i].1) {
            Ok(t) => t,
            Err(e) => {
                proof {
                    lemma_dec_cache_seq_prefix_err(s, i as int, e.deep_view());
                }
                return Err(e);
            },
        };
        let ghost kd = (key, tree.deep_view());
        out.push((key, tree));
        proof {
            assert(out.deep_view() =~= prev.push(kd));
            assert(s.take(i + 1).drop_last() =~= s.take(i as int));
            assert(s.take(i + 1)[i as int] == s[i as int]);
            assert(dec_cache_seq(s.take(i + 1)) == Ok::<
                Seq<(NoteType, Seq<NoteView>)>,
                ErrorView,
            >(out.deep_view()));
        }
        i = i + 1;
    }
    proof {
        assert(s.take(entries@.len() as int) =~= s);
    }
    Ok(out)
}

/// Abstract decoding of one reader-metrics entry: its value must be a
/// string slot.
pub open spec fn dec_metrics_entry(p: (Seq<char>, ValueView)) -> Result<
    (Seq<char>, Seq<char>),
    ErrorView,
> {
    match dec_str_v(p.1) {
        Ok(s) => Ok((p.0, s)),
        Err(e) => Err(e),
    }
}

/// Decodes a sequence in order with the element decoder, stopping at
/// the first failing element and returning its error.
pub open spec fn dec_metrics_seq(s: Seq<(Seq<char>, ValueView)>) -> Result<Seq<(Seq<char>, Seq<char>)>, ErrorView>
    decreases s.len(),
{
    if s.len() == 0 {
        Ok(Seq::empty())
    } else {
        match dec_metrics_seq(s.drop_last()) {
            Ok(init) => match dec_metrics_entry(s[s.len() - 1]) {
                Ok(a) => Ok(init.push(a)),
                Err(e) => Err(e),
            },
            Err(e) => Err(e),
        }
    }
}

/// If every element before position `i` decodes and the element at
/// `i` fails, the whole sequence fails with that element's error.
pub proof fn lemma_dec_metrics_seq_prefix_err(s: Seq<(Seq<char>, ValueView)>, i: int, e: ErrorView)
    requires
        0 <= i < s.len(),
        dec_metrics_seq(s.take(i)) is Ok,
        dec_metrics_entry(s[i]) == Err::<(Seq<char>, Seq<char>), ErrorView>(e),
    ensures
        dec_metrics_seq(s) == Err::<Seq<(Seq<char>, Seq<char>)>, ErrorView>(e),
    decreases s.len(),
{
    if s.len() == i + 1 {
        assert(s.take(i) =~= s.drop_last());
    } else {
        assert(s.drop_last().take(i) =~= s.take(i));
        lemma_dec_metrics_seq_prefix_err(s.drop_last(), i, e);
    }
}

/// Abstract decoding of the reader metrics: every named entry, in
/// source order.
pub open spec fn dec_metrics(v: ValueView) -> Result<Seq<(Seq<char>, Seq<char>)>, ErrorView> {
    if !(v is Named) {
        Err(type_err(ValueKind::Named, v))
    } else {
        dec_metrics_seq(v->Named_0)
    }
}

/// Decodes the reader metrics, preserving entry order.
pub fn decode_reader_metrics(v: &Value) -> (r: Result<Vec<(String, String)>, KrdsError>)
    ensures
        res_view(r) == dec_metrics(v.deep_view()),
{
    let fields = match v {
        Value::Named(fields) => fields,
        _ => {
            return Err(KrdsError::TypeMismatch { expected: ValueKind::Named, actual: v.kind() });
        },
    };
    proof {
        assert(v.deep_view() is Named);
        assert(v.deep_view()->Named_0 == named_view(fields@));
    }
    let ghost s = named_view(fields@);
    let mut out: Vec<(String, String)> = Vec::new();
    proof {
        assert(s.take(0) =~= Seq::<(Seq<char>, ValueView)>::empty());
        assert(out.deep_view() =~= Seq::<(Seq<char>, Seq<char>)>::empty());
    }
    let mut i: usize = 0;
    while i < fields.len()
        invariant
            i <= fields.len(),
            s == named_view(fields@),
            v.deep_view() is Named,
            v.deep_view()->Named_0 == s,
            dec_metrics_seq(s.take(i as int)) == Ok::<Seq<(Seq<char>, Seq<char>)>, ErrorView>(
                out.deep_view(),
            ),
        decreases fields.len() - i,
    {
        let ghost prev = out.deep_view();
        proof {
            assert(s[i as int] == (fields@[i as int].0@, fields@[i as int].1.view_rec()));
        }
        let name = fields[i].0.clone();
        let val = match decode_string(&fields[i].1) {
            Ok(x) => x,
            Err(e) => {
                proof {
                    lemma_dec_metrics_seq_prefix_err(s, i as int, e.deep_view());
                }
                return Err(e);
            },
        };
        let ghost pd = (name@, val@);
        out.push((name, val));
        proof {
            assert(out.deep_view() =~= prev.push(pd));
            assert(s.take(i + 1).drop_last() =~= s.take(i as int));
            assert(s.take(i + 1)[i as int] == s[i as int]);
            assert(dec_metrics_seq(s.take(i + 1)) == Ok::<
                Seq<(Seq<char>, Seq<char>)>,
                ErrorView,
            >(out.deep_view()));
        }
        i = i + 1;
    }
    proof {
        assert(s.take(fields@.len() as int) =~= s);
    }
    Ok(out)
}

/// Abstract decoding of a normal-distribution sample from under its
/// wrapper tag.
pub open spec fn dec_tadn(v: ValueView) -> Result<TimerAverageDistributionNormal, ErrorView> {
    match dec_tagged(v, "timer.average.calculator.distribution.normal"@) {
        Err(e) => Err(e),
        Ok(items) => {
            if items.len() != 3 {
                Err(arity_err(3, items.len()))
            } else if dec_i64_v(items[0]) is Err {
                Err(dec_i64_v(items[0])->Err_0)
            } else if dec_double_v(items[1]) is Err {
                Err(dec_double_v(items[1])->Err_0)
            } else if dec_double_v(items[2]) is Err {
                Err(dec_double_v(items[2])->Err_0)
            } else {
                Ok(
                    TimerAverageDistributionNormal(
                        dec_i64_v(items[0])->Ok_0,
                        dec_double_v(items[1])->Ok_0,
                        dec_double_v(items[2])->Ok_0,
                    ),
                )
            }
        },
    }
}

/// Decodes one normal-distribution sample from under its wrapper tag.
pub fn decode_tadn(v: &Value) -> (r: Result<TimerAverageDistributionNormal, KrdsError>)
    ensures
        res_view(r) == dec_tadn(v.deep_view()),
{
    let items = match take_tagged(v, &"timer.average.calculator.distribution.normal".to_owned()) {
        Ok(items) => items,
        Err(e) => {
            return Err(e);
        },
    };
    if items.len() != 3 {
        return Err(KrdsError::ArityMismatch { expected: 3, actual: items.len() });
    }
    let f0 = match decode_i64(&items[0]) {
        Ok(x) => x,
        Err(e) => {
            return Err(e);
        },
    };
    let f1 = match decode_double_bits(&items[1]) {
        Ok(x) => x,
        Err(e) => {
            return Err(e);
        },
    };
    let f2 = match decode_double_bits(&items[2]) {
        Ok(x) => x,
        Err(e) => {
            return Err(e);
        },
    };
    Ok(TimerAverageDistributionNormal(f0, f1, f2))
}

/// Abstract decoding of an outlier sample from under its wrapper tag.
pub open spec fn dec_tao(v: ValueView) -> Result<TimerAverageOutliers, ErrorView> {
    match dec_tagged(v, "timer.average.calculator.outliers"@) {
        Err(e) => Err(e),
        Ok(items) => {
            if items.len() != 3 {
                Err(arity_err(3, items.len()))
            } else if dec_i32_v(items[0]) is Err {
                Err(dec_i32_v(items[0])->Err_0)
            } else if dec_double_v(items[1]) is Err {
                Err(dec_double_v(items[1])->Err_0)
            } else if dec_double_v(items[2]) is Err {
                Err(dec_double_v(items[2])->Err_0)
            } else {
                Ok(
                    TimerAverageOutliers(
                        dec_i32_v(items[0])->Ok_0,
                        dec_double_v(items[1])->Ok_0,
                        dec_double_v(items[2])->Ok_0,
                    ),
                )
            }
        },
    }
}

/// Decodes one outlier sample from under its wrapper tag.
pub fn decode_tao(v: &Value) -> (r: Result<TimerAverageOutliers, KrdsError>)
    ensures
        res_view(r) == dec_tao(v.deep_view()),
{
    let items = match take_tagged(v, &"timer.average.calculator.outliers".to_owned()) {
        Ok(items) => items,
        Err(e) => {
            return Err(e);
        },
    };
    if items.len() != 3 {
        return Err(KrdsError::ArityMismatch { expected: 3, actual: items.len() });
    }
    let f0 = match decode_i32(&items[0]) {
        Ok(x) => x,
        Err(e) => {
            return Err(e);
        },
    };
    let f1 = match decode_double_bits(&items[1]) {
        Ok(x) => x,
        Err(e) => {
            return Err(e);
        },
    };
    let f2 = match decode_double_bits(&items[2]) {
        Ok(x) => x,
        Err(e) => {
            return Err(e);
        },
    };
    Ok(TimerAverageOutliers(f0, f1, f2))
}

/// Decodes a sequence in order with the element decoder, stopping at
/// the first failing element and returning its error.
pub open spec fn dec_tadn_seq(s: Seq<ValueView>) -> Result<Seq<TimerAverageDistributionNormal>, ErrorView>
    decreases s.len(),
{
    if s.len() == 0 {
        Ok(Seq::empty())
    } else {
        match dec_tadn_seq(s.drop_last()) {
            Ok(init) => match dec_tadn(s[s.len() - 1]) {
                Ok(a) => Ok(init.push(a)),
                Err(e) => Err(e),
            },
            Err(e) => Err(e),
        }
    }
}

/// If every element before position `i` decodes and the element at
/// `i` fails, the whole sequence fails with that element's error.
pub proof fn lemma_dec_tadn_seq_prefix_err(s: Seq<ValueView>, i: int, e: ErrorView)
    requires
        0 <= i < s.len(),
        dec_tadn_seq(s.take(i)) is Ok,
        dec_tadn(s[i]) == Err::<TimerAverageDistributionNormal, ErrorView>(e),
    ensures
        dec_tadn_seq(s) == Err::<Seq<TimerAverageDistributionNormal>, ErrorView>(e),
    decreases s.len(),
{
    if s.len() == i + 1 {
        assert(s.take(i) =~= s.drop_last());
    } else {
        assert(s.drop_last().take(i) =~= s.take(i));
        lemma_dec_tadn_seq_prefix_err(s.drop_last(), i, e);
    }
}

/// Decodes a sequence in order with the element decoder, stopping at
/// the first failing element and returning its error.
pub open spec fn dec_tao_seq(s: Seq<ValueView>) -> Result<Seq<TimerAverageOutliers>, ErrorView>
    decreases s.len(),
{
    if s.len() == 0 {
        Ok(Seq::empty())
    } else {
        match dec_tao_seq(s.drop_last()) {
            Ok(init) => match dec_tao(s[s.len() - 1]) {
                Ok(a) => Ok(init.push(a)),
                Err(e) => Err(e),
            },
            Err(e) => Err(e),
        }
    }
}

/// If every element before position `i` decodes and the element at
/// `i` fails, the whole sequence fails with that element's error.
pub proof fn lemma_dec_tao_seq_prefix_err(s: Seq<ValueView>, i: int, e: ErrorView)
    requires
        0 <= i < s.len(),
        dec_tao_seq(s.take(i)) is Ok,
        dec_tao(s[i]) == Err::<TimerAverageOutliers, ErrorView>(e),
    ensures
        dec_tao_seq(s) == Err::<Seq<TimerAverageOutliers>, ErrorView>(e),
    decreases s.len(),
{
    if s.len() == i + 1 {
        assert(s.take(i) =~= s.drop_last());
    } else {
        assert(s.drop_last().take(i) =~= s.take(i));
        lemma_dec_tao_seq_prefix_err(s.drop_last(), i, e);
    }
}


/// Abstract decoding of a [`TimerAverageCalculator`] from under its
/// wrapper tag.
pub open spec fn dec_tac(v: ValueView) -> Result<TacView, ErrorView> {
    match dec_tagged(v, "timer.average.calculator"@) {
        Err(e) => Err(e),
        Ok(items) => {
            if items.len() != 4 {
                Err(arity_err(4, items.len()))
            } else if dec_i32_v(items[0]) is Err {
                Err(dec_i32_v(items[0])->Err_0)
            } else if dec_i32_v(items[1]) is Err {
                Err(dec_i32_v(items[1])->Err_0)
            } else if !(items[2] is Tuple) {
                Err(type_err(ValueKind::Tuple, items[2]))
            } else if dec_tadn_seq(items[2]->Tuple_0) is Err {
                Err(dec_tadn_seq(items[2]->Tuple_0)->Err_0)
            } else if !(items[3] is Tuple) {
                Err(type_err(ValueKind::Tuple, items[3]))
            } else if dec_tao_seq(items[3]->Tuple_0) is Err {
                Err(dec_tao_seq(items[3]->Tuple_0)->Err_0)
            } else {
                Ok(
                    TacView(
                        dec_i32_v(items[0])->Ok_0,
                        dec_i32_v(items[1])->Ok_0,
                        dec_tadn_seq(items[2]->Tuple_0)->Ok_0,
                        dec_tao_seq(items[3]->Tuple_0)->Ok_0,
                    ),
                )
            }
        },
    }
}

/// Decodes the list of normal-distribution samples.
fn decode_tadn_list(v: &Value) -> (r: Result<Vec<TADNWrapper>, KrdsError>)
    ensures
        match r {
            Ok(out) => v.deep_view() is Tuple && dec_tadn_seq(v.deep_view()->Tuple_0)
                == Ok::<Seq<TimerAverageDistributionNormal>, ErrorView>(out.deep_view()),
            Err(e) => (if !(v.deep_view() is Tuple) {
                Err::<Seq<TimerAverageDistributionNormal>, ErrorView>(
                    type_err(ValueKind::Tuple, v.deep_view()),
                )
            } else {
                dec_tadn_seq(v.deep_view()->Tuple_0)
            }) == Err::<Seq<TimerAverageDistributionNormal>, ErrorView>(e.deep_view()),
        },
{
    let items = match v {
        Value::Tuple(items) => items,
        _ => {
            return Err(KrdsError::TypeMismatch { expected: ValueKind::Tuple, actual: v.kind() });
        },
    };
    proof {
        assert(v.deep_view() is Tuple);
        assert(v.deep_view()->Tuple_0 == values_view(items@));
    }
    let ghost s = values_view(items@);
    let mut out: Vec<TADNWrapper> = Vec::new();
    proof {
        assert(s.take(0) =~= Seq::<ValueView>::empty());
        assert(out.deep_view() =~= Seq::<TimerAverageDistributionNormal>::empty());
    }
    let mut i: usize = 0;
    while i < items.len()
        invariant
            i <= items.len(),
            s == values_view(items@),
            v.deep_view() is Tuple,
            v.deep_view()->Tuple_0 == s,
            dec_tadn_seq(s.take(i as int)) == Ok::<
                Seq<TimerAverageDistributionNormal>,
                ErrorView,
            >(out.deep_view()),
        decreases items.len() - i,
    {
        let ghost prev = out.deep_view();
        proof {
            assert(s[i as int] == items@[i as int].view_rec());
        }
        match decode_tadn(&items[i]) {
            Ok(t) => {
                out.push(TADNWrapper(t));
                proof {
                    assert(out.deep_view() =~= prev.push(t));
                    assert(s.take(i + 1).drop_last() =~= s.take(i as int));
                    assert(s.take(i + 1)[i as int] == s[i as int]);
                    assert(dec_tadn_seq(s.take(i + 1)) == Ok::<
                        Seq<TimerAverageDistributionNormal>,
                        ErrorView,
                    >(out.deep_view()));
                }
            },
            Err(e) => {
                proof {
                    lemma_dec_tadn_seq_prefix_err(s, i as int, e.deep_view());
                }
                return Err(e);
            },
        }
        i = i + 1;
    }
    proof {
        assert(s.take(items@.len() as int) =~= s);
    }
    Ok(out)
}

/// Decodes the list of outlier samples.
fn decode_tao_list(v: &Value) -> (r: Result<Vec<TAOWrapper>, KrdsError>)
    ensures
        match r {
            Ok(out) => v.deep_view() is Tuple && dec_tao_seq(v.deep_view()->Tuple_0)
                == Ok::<Seq<TimerAverageOutliers>, ErrorView>(out.deep_view()),
            Err(e) => (if !(v.deep_view() is Tuple) {
                Err::<Seq<TimerAverageOutliers>, ErrorView>(
                    type_err(ValueKind::Tuple, v.deep_view()),
                )
            } else {
                dec_tao_seq(v.deep_view()->Tuple_0)
            }) == Err::<Seq<TimerAverageOutliers>, ErrorView>(e.deep_view()),
        },
{
    let items = match v {
        Value::Tuple(items) => items,
        _ => {
            return Err(KrdsError::TypeMismatch { expected: ValueKind::Tuple, actual: v.kind() });
        },
    };
    proof {
        assert(v.deep_view() is Tuple);
        assert(v.deep_view()->Tuple_0 == values_view(items@));
    }
    let ghost s = values_view(items@);
    let mut out: Vec<TAOWrapper> = Vec::new();
    proof {
        assert(s.take(0) =~= Seq::<ValueView>::empty());
        assert(out.deep_view() =~= Seq::<TimerAverageOutliers>::empty());
    }
    let mut i: usize = 0;
    while i < items.len()
        invariant
            i <= items.len(),
            s == values_view(items@),
            v.deep_view() is Tuple,
            v.deep_view()->Tuple_0 == s,
            dec_tao_seq(s.take(i as int)) == Ok::<Seq<TimerAverageOutliers>, ErrorView>(
                out.deep_view(),
            ),
        decreases items.len() - i,
    {
        let ghost prev = out.deep_view();
        proof {
            assert(s[i as int] == items@[i as int].view_rec());
        }
        match decode_tao(&items[i]) {
            Ok(t) => {
                out.push(TAOWrapper(t));
                proof {
                    assert(out.deep_view() =~= prev.push(t));
                    assert(s.take(i + 1).drop_last() =~= s.take(i as int));
                    assert(s.take(i + 1)[i as int] == s[i as int]);
                    assert(dec_tao_seq(s.take(i + 1)) == Ok::<
                        Seq<TimerAverageOutliers>,
                        ErrorView,
                    >(out.deep_view()));
                }
            },
            Err(e) => {
                proof {
                    lemma_dec_tao_seq_prefix_err(s, i as int, e.deep_view());
                }
                return Err(e);
            },
        }
        i = i + 1;
    }
    proof {
        assert(s.take(items@.len() as int) =~= s);
    }
    Ok(out)
}

/// Decodes the calculator data from under its wrapper tag.
pub fn decode_timer_average_calculator(v: &Value) -> (r: Result<
    TimerAverageCalculator,
    KrdsError,
>)
    ensures
        res_view(r) == dec_tac(v.deep_view()),
{
    let items = match take_tagged(v, &"timer.average.calculator".to_owned()) {
        Ok(items) => items,
        Err(e) => {
            return Err(e);
        },
    };
    if items.len() != 4 {
        return Err(KrdsError::ArityMismatch { expected: 4, actual: items.len() });
    }
    let f0 = match decode_i32(&items[0]) {
        Ok(x) => x,
        Err(e) => {
            return Err(e);
        },
    };
    let f1 = match decode_i32(&items[1]) {
        Ok(x) => x,
        Err(e) => {
            return Err(e);
        },
    };
    let f2 = match decode_tadn_list(&items[2]) {
        Ok(x) => x,
        Err(e) => {
            return Err(e);
        },
    };
    let f3 = match decode_tao_list(&items[3]) {
        Ok(x) => x,
        Err(e) => {
            return Err(e);
        },
    };
    Ok(TimerAverageCalculator(f0, f1, f2, f3))
}

/// Abstract decoding of a [`TimerModel`].
pub open spec fn dec_timer_model(v: ValueView) -> Result<TimerModelView, ErrorView> {
    if !(v is Tuple) {
        Err(type_err(ValueKind::Tuple, v))
    } else {
        let items = v->Tuple_0;
        if items.len() != 5 {
            Err(arity_err(5, items.len()))
        } else if dec_i64_v(items[0]) is Err {
            Err(dec_i64_v(items[0])->Err_0)
        } else if dec_i64_v(items[1]) is Err {
            Err(dec_i64_v(items[1])->Err_0)
        } else if dec_i64_v(items[2]) is Err {
            Err(dec_i64_v(items[2])->Err_0)
        } else if dec_double_v(items[3]) is Err {
            Err(dec_double_v(items[3])->Err_0)
        } else if dec_tac(items[4]) is Err {
            Err(dec_tac(items[4])->Err_0)
        } else {
            Ok(
                TimerModelView(
                    dec_i64_v(items[0])->Ok_0,
                    dec_i64_v(items[1])->Ok_0,
                    dec_i64_v(items[2])->Ok_0,
                    dec_double_v(items[3])->Ok_0,
                    dec_tac(items[4])->Ok_0,
                ),
            )
        }
    }
}

/// Decodes a timer model.
pub fn decode_timer_model(v: &Value) -> (r: Result<TimerModel, KrdsError>)
    ensures
        res_view(r) == dec_timer_model(v.deep_view()),
{
    let items = match v {
        Value::Tuple(items) => items,
        _ => {
            return Err(KrdsError::TypeMismatch { expected: ValueKind::Tuple, actual: v.kind() });
        },
    };
    proof {
        assert(v.deep_view() is Tuple);
        assert(v.deep_view()->Tuple_0 == values_view(items@));
        assert(values_view(items@).len() == items@.len());
    }
    if items.len() != 5 {
        return Err(KrdsError::ArityMismatch { expected: 5, actual: items.len() });
    }
    let f0 = match decode_i64(&items[0]) {
        Ok(x) => x,
        Err(e) => {
            return Err(e);
        },
    };
    let f1 = match decode_i64(&items[1]) {
        Ok(x) => x,
        Err(e) => {
            return Err(e);
        },
    };
    let f2 = match decode_i64(&items[2]) {
        Ok(x) => x,
        Err(e) => {
            return Err(e);
        },
    };
    let f3 = match decode_double_bits(&items[3]) {
        Ok(x) => x,
        Err(e) => {
            return Err(e);
        },
    };
    let f4 = match decode_timer_average_calculator(&items[4]) {
        Ok(x) => x,
        Err(e) => {
            return Err(e);
        },
    };
    Ok(TimerModel(f0, f1, f2, f3, TACWrapper(f4)))
}

/// Abstract decoding of the page-history store.
pub open spec fn dec_page_history(v: ValueView) -> Result<Seq<PageHistoryView>, ErrorView> {
    if !(v is Tuple) {
        Err(type_err(ValueKind::Tuple, v))
    } else {
        dec_phr_seq(v->Tuple_0)
    }
}

/// Decodes the page-history store, preserving record order.
pub fn decode_page_history_store(v: &Value) -> (r: Result<Vec<PHRWrapper>, KrdsError>)
    ensures
        res_view(r) == dec_page_history(v.deep_view()),
{
    let items = match v {
        Value::Tuple(items) => items,
        _ => {
            return Err(KrdsError::TypeMismatch { expected: ValueKind::Tuple, actual: v.kind() });
        },
    };
    proof {
        assert(v.deep_view() is Tuple);
        assert(v.deep_view()->Tuple_0 == values_view(items@));
    }
    let ghost s = values_view(items@);
    let mut out: Vec<PHRWrapper> = Vec::new();
    proof {
        assert(s.take(0) =~= Seq::<ValueView>::empty());
        assert(out.deep_view() =~= Seq::<PageHistoryView>::empty());
    }
    let mut i: usize = 0;
    while i < items.len()
        invariant
            i <= items.len(),
            s == values_view(items@),
            v.deep_view() is Tuple,
            v.deep_view()->Tuple_0 == s,
            dec_phr_seq(s.take(i as int)) == Ok::<Seq<PageHistoryView>, ErrorView>(
                out.deep_view(),
            ),
        decreases items.len() - i,
    {
        let ghost prev = out.deep_view();
        proof {
            assert(s[i as int] == items@[i as int].view_rec());
        }
        match decode_page_history_record(&items[i]) {
            Ok(p) => {
                let ghost pd = p.deep_view();
                out.push(PHRWrapper(p));
                proof {
                    assert(out.deep_view() =~= prev.push(pd));
                    assert(s.take(i + 1).drop_last() =~= s.take(i as int));
                    assert(s.take(i + 1)[i as int] == s[i as int]);
                    assert(dec_phr_seq(s.take(i + 1)) == Ok::<
                        Seq<PageHistoryView>,
                        ErrorView,
                    >(out.deep_view()));
                }
            },
            Err(e) => {
                proof {
                    lemma_dec_phr_seq_prefix_err(s, i as int, e.deep_view());
                }
                return Err(e);
            },
        }
        i = i + 1;
    }
    proof {
        assert(s.take(items@.len() as int) =~= s);
    }
    Ok(out)
}

/// The first named field with the given name, if any: top-level
/// fields are probed by name, and the first occurrence wins.
pub open spec fn find_field(fields: Seq<(Seq<char>, ValueView)>, name: Seq<char>) -> Option<
    ValueView,
>
    decreases fields.len(),
{
    if fields.len() == 0 {
        None
    } else if fields[0].0 == name {
        Some(fields[0].1)
    } else {
        find_field(fields.drop_first(), name)
    }
}

/// If no field among the first `i` carries the name, the lookup over
/// the whole record equals the lookup past them.
pub proof fn lemma_find_field_skip(fields: Seq<(Seq<char>, ValueView)>, name: Seq<char>, i: int)
    requires
        0 <= i <= fields.len(),
        forall|j: int| 0 <= j < i ==> fields[j].0 != name,
    ensures
        find_field(fields, name) == find_field(fields.skip(i), name),
    decreases i,
{
    if i > 0 {
        assert(fields[0].0 != name);
        lemma_find_field_skip(fields.drop_first(), name, i - 1);
        assert(fields.drop_first().skip(i - 1) =~= fields.skip(i));
    } else {
        assert(fields.skip(0) =~= fields);
    }
}

/// Looks a field up by name; the first occurrence wins, unknown names
/// are simply not found.
fn lookup_field<'a>(fields: &'a Vec<(String, Value)>, name: &String) -> (r: Option<&'a Value>)
    ensures
        match r {
            Some(fv) => find_field(named_view(fields@), name@) == Some(fv.deep_view()),
            None => find_field(named_view(fields@), name@) is None,
        },
{
    let ghost fs = named_view(fields@);
    let mut i: usize = 0;
    while i < fields.len()
        invariant
            i <= fields.len(),
            fs == named_view(fields@),
            forall|j: int| 0 <= j < i ==> fs[j].0 != name@,
        decreases fields.len() - i,
    {
        proof {
            assert(fs[i as int] == (fields@[i as int].0@, fields@[i as int].1.view_rec()));
        }
        if fields[i].0.eq(name) {
            proof {
                lemma_find_field_skip(fs, name@, i as int);
                assert(fs.skip(i as int).len() > 0);
                assert(fs.skip(i as int)[0] == fs[i as int]);
            }
            return Some(&fields[i].1);
        }
        i = i + 1;
    }
    proof {
        lemma_find_field_skip(fs, name@, fields@.len() as int);
        assert(fs.skip(fields@.len() as int) =~= Seq::<(Seq<char>, ValueView)>::empty());
    }
    None
}

/// Decodes the optional field, absent when the source omits it.
pub open spec fn dec_opt_font(o: Option<ValueView>) -> Result<Option<FontPreferencesView>, ErrorView> {
    match o {
        None => Ok(None),
        Some(vv) => match dec_font(vv) {
            Ok(x) => Ok(Some(x)),
            Err(e) => Err(e),
        },
    }
}

/// Decodes the optional field, absent when the source omits it.
pub open spec fn dec_opt_bool(o: Option<ValueView>) -> Result<Option<bool>, ErrorView> {
    match o {
        None => Ok(None),
        Some(vv) => match dec_bool_v(vv) {
            Ok(x) => Ok(Some(x)),
            Err(e) => Err(e),
        },
    }
}

/// Decodes the optional field, absent when the source omits it.
pub open spec fn dec_opt_str(o: Option<ValueView>) -> Result<Option<Seq<char>>, ErrorView> {
    match o {
        None => Ok(None),
        Some(vv) => match dec_str_v(vv) {
            Ok(x) => Ok(Some(x)),
            Err(e) => Err(e),
        },
    }
}

/// Decodes the optional field, absent when the source omits it.
pub open spec fn dec_opt_cache(o: Option<ValueView>) -> Result<Option<Seq<(NoteType, Seq<NoteView>)>>, ErrorView> {
    match o {
        None => Ok(None),
        Some(vv) => match dec_cache(vv) {
            Ok(x) => Ok(Some(x)),
            Err(e) => Err(e),
        },
    }
}

/// Decodes the optional field, absent when the source omits it.
pub open spec fn dec_opt_apnx(o: Option<ValueView>) -> Result<Option<ApnxKeyView>, ErrorView> {
    match o {
        None => Ok(None),
        Some(vv) => match dec_apnx(vv) {
            Ok(x) => Ok(Some(x)),
            Err(e) => Err(e),
        },
    }
}

/// Decodes the optional field, absent when the source omits it.
pub open spec fn dec_opt_language(o: Option<ValueView>) -> Result<Option<LanguageStoreView>, ErrorView> {
    match o {
        None => Ok(None),
        Some(vv) => match dec_language(vv) {
            Ok(x) => Ok(Some(x)),
            Err(e) => Err(e),
        },
    }
}

/// Decodes the optional field, absent when the source omits it.
pub open spec fn dec_opt_metrics(o: Option<ValueView>) -> Result<Option<Seq<(Seq<char>, Seq<char>)>>, ErrorView> {
    match o {
        None => Ok(None),
        Some(vv) => match dec_metrics(vv) {
            Ok(x) => Ok(Some(x)),
            Err(e) => Err(e),
        },
    }
}

/// Decodes the optional field, absent when the source omits it.
pub open spec fn dec_opt_timer_model(o: Option<ValueView>) -> Result<Option<TimerModelView>, ErrorView> {
    match o {
        None => Ok(None),
        Some(vv) => match dec_timer_model(vv) {
            Ok(x) => Ok(Some(x)),
            Err(e) => Err(e),
        },
    }
}

/// Decodes the optional field, absent when the source omits it.
pub open spec fn dec_opt_fpr(o: Option<ValueView>) -> Result<Option<FprView>, ErrorView> {
    match o {
        None => Ok(None),
        Some(vv) => match dec_fpr(vv) {
            Ok(x) => Ok(Some(x)),
            Err(e) => Err(e),
        },
    }
}

/// Decodes the optional field, absent when the source omits it.
pub open spec fn dec_opt_book_info(o: Option<ValueView>) -> Result<Option<BookInfoStore>, ErrorView> {
    match o {
        None => Ok(None),
        Some(vv) => match dec_book_info(vv) {
            Ok(x) => Ok(Some(x)),
            Err(e) => Err(e),
        },
    }
}

/// Decodes the optional field, absent when the source omits it.
pub open spec fn dec_opt_page_history(o: Option<ValueView>) -> Result<Option<Seq<PageHistoryView>>, ErrorView> {
    match o {
        None => Ok(None),
        Some(vv) => match dec_page_history(vv) {
            Ok(x) => Ok(Some(x)),
            Err(e) => Err(e),
        },
    }
}

/// Decodes the optional field, absent when the source omits it.
pub open spec fn dec_opt_whisper(o: Option<ValueView>) -> Result<Option<WhisperstoreMigrationStatus>, ErrorView> {
    match o {
        None => Ok(None),
        Some(vv) => match dec_whisper(vv) {
            Ok(x) => Ok(Some(x)),
            Err(e) => Err(e),
        },
    }
}

/// Decodes the optional field, absent when the source omits it.
pub open spec fn dec_opt_lpr(o: Option<ValueView>) -> Result<Option<LprView>, ErrorView> {
    match o {
        None => Ok(None),
        Some(vv) => match dec_lpr(vv) {
            Ok(x) => Ok(Some(x)),
            Err(e) => Err(e),
        },
    }
}

/// Abstract decoding of a reader data file: each known field probed
/// by name, absent fields left unset, unknown fields ignored.
pub open spec fn dec_reader(v: ValueView) -> Result<ReaderView, ErrorView> {
    if !(v is Named) {
        Err(type_err(ValueKind::Named, v))
    } else {
        let fs = v->Named_0;
        match dec_opt_font(find_field(fs, "font.prefs"@)) {
            Err(e) => Err(e),
            Ok(font_preferences) => match dec_opt_bool(find_field(fs, "sync_lpr"@)) {
                Err(e) => Err(e),
                Ok(sync_lpr) => match dec_opt_str(
                    find_field(fs, "next.in.series.info.data"@),
                ) {
                    Err(e) => Err(e),
                    Ok(nis_info_data) => match dec_opt_cache(
                        find_field(fs, "annotation.cache.object"@),
                    ) {
                        Err(e) => Err(e),
                        Ok(annotation_cache) => match dec_opt_apnx(
                            find_field(fs, "apnx.key"@),
                        ) {
                            Err(e) => Err(e),
                            Ok(apnx_key) => match dec_opt_language(
                                find_field(fs, "language.store"@),
                            ) {
                                Err(e) => Err(e),
                                Ok(language_store) => match dec_opt_metrics(
                                    find_field(fs, "ReaderMetrics"@),
                                ) {
                                    Err(e) => Err(e),
                                    Ok(reader_metrics) => Ok(
                                        ReaderView {
                                            font_preferences,
                                            sync_lpr,
                                            nis_info_data,
                                            annotation_cache,
                                            apnx_key,
                                            language_store,
                                            reader_metrics,
                                        },
                                    ),
                                },
                            },
                        },
                    },
                },
            },
        }
    }
}

/// Decodes a reader data file.  Absent fields stay unset; field names
/// the schema does not know are ignored, so files written by newer
/// devices still decode.
#[verifier::rlimit(80)]
pub fn decode_reader_data(v: &Value) -> (r: Result<ReaderDataFile, KrdsError>)
    ensures
        res_view(r) == dec_reader(v.deep_view()),
{
    let fields = match v {
        Value::Named(fields) => fields,
        _ => {
            return Err(KrdsError::TypeMismatch { expected: ValueKind::Named, actual: v.kind() });
        },
    };
    proof {
        assert(v.deep_view() is Named);
        assert(v.deep_view()->Named_0 == named_view(fields@));
    }
    let font_preferences = match lookup_field(fields, &"font.prefs".to_owned()) {
        None => None,
        Some(fv) => match decode_font_preferences(fv) {
            Ok(x) => Some(x),
            Err(e) => {
                return Err(e);
            },
        },
    };
    let sync_lpr = match lookup_field(fields, &"sync_lpr".to_owned()) {
        None => None,
        Some(fv) => match decode_bool(fv) {
            Ok(x) => Some(x),
            Err(e) => {
                return Err(e);
            },
        },
    };
    let nis_info_data = match lookup_field(fields, &"next.in.series.info.data".to_owned()) {
        None => None,
        Some(fv) => match decode_string(fv) {
            Ok(x) => Some(x),
            Err(e) => {
                return Err(e);
            },
        },
    };
    let annotation_cache = match lookup_field(fields, &"annotation.cache.object".to_owned()) {
        None => None,
        Some(fv) => match decode_annotation_cache(fv) {
            Ok(x) => Some(x),
            Err(e) => {
                return Err(e);
            },
        },
    };
    let apnx_key = match lookup_field(fields, &"apnx.key".to_owned()) {
        None => None,
        Some(fv) => match decode_apnx_key(fv) {
            Ok(x) => Some(x),
            Err(e) => {
                return Err(e);
            },
        },
    };
    let language_store = match lookup_field(fields, &"language.store".to_owned()) {
        None => None,
        Some(fv) => match decode_language_store(fv) {
            Ok(x) => Some(x),
            Err(e) => {
                return Err(e);
            },
        },
    };
    let reader_metrics = match lookup_field(fields, &"ReaderMetrics".to_owned()) {
        None => None,
        Some(fv) => match decode_reader_metrics(fv) {
            Ok(x) => Some(x),
            Err(e) => {
                return Err(e);
            },
        },
    };
    Ok(
        ReaderDataFile {
            font_preferences,
            sync_lpr,
            nis_info_data,
            annotation_cache,
            apnx_key,
            language_store,
            reader_metrics,
        },
    )
}

/// Abstract decoding of a timer data file: each known field probed by
/// name, absent fields left unset, unknown fields ignored.
pub open spec fn dec_timer(v: ValueView) -> Result<TimerView, ErrorView> {
    if !(v is Named) {
        Err(type_err(ValueKind::Named, v))
    } else {
        let fs = v->Named_0;
        match dec_opt_timer_model(find_field(fs, "timer.model"@)) {
            Err(e) => Err(e),
            Ok(timer_model) => match dec_opt_fpr(find_field(fs, "fpr"@)) {
                Err(e) => Err(e),
                Ok(fpr) => match dec_opt_book_info(find_field(fs, "book.info.store"@)) {
                    Err(e) => Err(e),
                    Ok(book_info_store) => match dec_opt_page_history(
                        find_field(fs, "page.history.store"@),
                    ) {
                        Err(e) => Err(e),
                        Ok(page_history_store) => match dec_opt_whisper(
                            find_field(fs, "whisperstore.migration.status"@),
                        ) {
                            Err(e) => Err(e),
                            Ok(whisperstore_migration_status) => match dec_opt_lpr(
                                find_field(fs, "lpr"@),
                            ) {
                                Err(e) => Err(e),
                                Ok(lpr) => Ok(
                                    TimerView {
                                        timer_model,
                                        fpr,
                                        book_info_store,
                                        page_history_store,
                                        whisperstore_migration_status,
                                        lpr,
                                    },
                                ),
                            },
                        },
                    },
                },
            },
        }
    }
}

/// Decodes a timer data file.  Absent fields stay unset; field names
/// the schema does not know are ignored.
#[verifier::rlimit(80)]
pub fn decode_timer_data(v: &Value) -> (r: Result<TimerDataFile, KrdsError>)
    ensures
        res_view(r) == dec_timer(v.deep_view()),
{
    let fields = match v {
        Value::Named(fields) => fields,
        _ => {
            return Err(KrdsError::TypeMismatch { expected: ValueKind::Named, actual: v.kind() });
        },
    };
    proof {
        assert(v.deep_view() is Named);
        assert(v.deep_view()->Named_0 == named_view(fields@));
    }
    let timer_model = match lookup_field(fields, &"timer.model".to_owned()) {
        None => None,
        Some(fv) => match decode_timer_model(fv) {
            Ok(x) => Some(x),
            Err(e) => {
                return Err(e);
            },
        },
    };
    let fpr = match lookup_field(fields, &"fpr".to_owned()) {
        None => None,
        Some(fv) => match decode_fpr(fv) {
            Ok(x) => Some(x),
            Err(e) => {
                return Err(e);
            },
        },
    };
    let book_info_store = match lookup_field(fields, &"book.info.store".to_owned()) {
        None => None,
        Some(fv) => match decode_book_info_store(fv) {
            Ok(x) => Some(x),
            Err(e) => {
                return Err(e);
            },
        },
    };
    let page_history_store = match lookup_field(fields, &"page.history.store".to_owned()) {
        None => None,
        Some(fv) => match decode_page_history_store(fv) {
            Ok(x) => Some(x),
            Err(e) => {
                return Err(e);
            },
        },
    };
    let whisperstore_migration_status = match lookup_field(
        fields,
        &"whisperstore.migration.status".to_owned(),
    ) {
        None => None,
        Some(fv) => match decode_whisperstore_migration_status(fv) {
            Ok(x) => Some(x),
            Err(e) => {
                return Err(e);
            },
        },
    };
    let lpr = match lookup_field(fields, &"lpr".to_owned()) {
        None => None,
        Some(fv) => match decode_lpr(fv) {
            Ok(x) => Some(x),
            Err(e) => {
                return Err(e);
            },
        },
    };
    Ok(
        TimerDataFile {
            timer_model,
            fpr,
            book_info_store,
            page_history_store,
            whisperstore_migration_status,
            lpr,
        },
    )
}

} // verus!
