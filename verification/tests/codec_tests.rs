use krds::decode::decode_annotation_cache;
use krds::decode::decode_bool;
use krds::decode::decode_double_bits;
use krds::decode::decode_font_preferences;
use krds::decode::decode_i16;
use krds::decode::decode_i32;
use krds::decode::decode_i64;
use krds::decode::decode_i8;
use krds::decode::decode_note;
use krds::decode::decode_reader_data;
use krds::decode::decode_string;
use krds::decode::decode_timer_data;
use krds::encode::encode_note;
use krds::encode::encode_reader_data;
use krds::encode::encode_timer_data;
use krds::model::APNXKey;
use krds::model::AnnotationData;
use krds::model::BookInfoStore;
use krds::model::DoubleBits;
use krds::model::FPR;
use krds::model::FontPreferences;
use krds::model::IntervalTree;
use krds::model::LPR;
use krds::model::LanguageStore;
use krds::model::Note;
use krds::model::NoteType;
use krds::model::PHRWrapper;
use krds::model::PageHistoryRecord;
use krds::model::ReaderDataFile;
use krds::model::TACWrapper;
use krds::model::TADNWrapper;
use krds::model::TAOWrapper;
use krds::model::TimerAverageCalculator;
use krds::model::TimerAverageDistributionNormal;
use krds::model::TimerAverageOutliers;
use krds::model::TimerDataFile;
use krds::model::TimerModel;
use krds::model::WhisperstoreMigrationStatus;
use krds::value::KrdsError;
use krds::value::Value;
use krds::value::ValueKind;

fn sample_font() -> FontPreferences {
    FontPreferences(
        "Bookerly".to_string(),
        0,
        7,
        1,
        0,
        0,
        -1,
        0,
        0,
        2,
        "sans".to_string(),
        0,
        "phx".to_string(),
        false,
        "x".to_string(),
        1,
    )
}

fn sample_annotation(payload: Option<&str>) -> AnnotationData {
    AnnotationData(
        "AdgBAAAAAAAA:1234".to_string(),
        "AdgBAAAAAAAA:1290".to_string(),
        1700000000000,
        1700000001000,
        "0\u{fffc}0".to_string(),
        payload.map(|s| s.to_string()),
    )
}

#[test]
fn note_type_closed_mapping() {
    assert_eq!(NoteType::try_from(0), Ok(NoteType::Bookmark));
    assert_eq!(NoteType::try_from(1), Ok(NoteType::Highlight));
    assert_eq!(NoteType::try_from(2), Ok(NoteType::Typed));
    assert_eq!(NoteType::try_from(10), Ok(NoteType::Handwritten));
    assert_eq!(NoteType::try_from(11), Ok(NoteType::Sticky));
    assert_eq!(NoteType::try_from(3), Err(()));
    assert_eq!(NoteType::try_from(-1), Err(()));
    assert_eq!(NoteType::try_from(999), Err(()));
    assert_eq!(NoteType::Handwritten.to_i32(), 10);
}

#[test]
fn unknown_enum_value_fails_cache_decode() {
    let cache = Value::Mapping(vec![(
        Value::Int(3),
        Value::Tagged("saved.avl.interval.tree".to_string(), vec![]),
    )]);
    assert_eq!(decode_annotation_cache(&cache), Err(KrdsError::UnknownEnumValue(3)));
}

#[test]
fn variant_dispatch_all_five_tags() {
    let tags = [
        ("annotation.personal.bookmark", 0),
        ("annotation.personal.highlight", 1),
        ("annotation.personal.note", 2),
        ("annotation.personal.handwritten_note", 3),
        ("annotation.personal.sticky_note", 4),
    ];
    for (tag, which) in tags.iter() {
        let v = Value::Tagged(
            tag.to_string(),
            vec![
                Value::Str("a".to_string()),
                Value::Str("b".to_string()),
                Value::Long(1),
                Value::Long(2),
                Value::Str("t".to_string()),
            ],
        );
        let note = decode_note(&v).unwrap();
        let ok = match (which, &note) {
            (0, Note::Bookmark(_)) => true,
            (1, Note::Highlight(_)) => true,
            (2, Note::Typed(_)) => true,
            (3, Note::Handwritten(_)) => true,
            (4, Note::Sticky(_)) => true,
            _ => false,
        };
        assert!(ok, "tag {} gave the wrong variant", tag);
    }
}

#[test]
fn unknown_variant_tag_fails() {
    let v = Value::Tagged("annotation.personal.doodle".to_string(), vec![]);
    assert_eq!(
        decode_note(&v),
        Err(KrdsError::UnknownVariantTag("annotation.personal.doodle".to_string()))
    );
}

#[test]
fn bookmark_and_highlight_never_emit_payload() {
    let b = Note::Bookmark(sample_annotation(None));
    if let Value::Tagged(tag, fields) = encode_note(&b) {
        assert_eq!(tag, "annotation.personal.bookmark");
        assert_eq!(fields.len(), 5);
    } else {
        panic!("expected a tagged value");
    }
    let h = Note::Highlight(sample_annotation(None));
    if let Value::Tagged(_, fields) = encode_note(&h) {
        assert_eq!(fields.len(), 5);
    } else {
        panic!("expected a tagged value");
    }
}

#[test]
fn typed_note_emits_payload_when_present() {
    let t = Note::Typed(sample_annotation(Some("the text")));
    if let Value::Tagged(tag, fields) = encode_note(&t) {
        assert_eq!(tag, "annotation.personal.note");
        assert_eq!(fields.len(), 6);
        assert_eq!(fields[5], Value::Str("the text".to_string()));
    } else {
        panic!("expected a tagged value");
    }
    let t2 = Note::Sticky(sample_annotation(None));
    if let Value::Tagged(_, fields) = encode_note(&t2) {
        assert_eq!(fields.len(), 5);
    } else {
        panic!("expected a tagged value");
    }
}

#[test]
fn absent_payload_decodes_as_none() {
    let v = Value::Tagged(
        "annotation.personal.handwritten_note".to_string(),
        vec![
            Value::Str("a".to_string()),
            Value::Str("b".to_string()),
            Value::Long(1),
            Value::Long(2),
            Value::Str("t".to_string()),
        ],
    );
    match decode_note(&v).unwrap() {
        Note::Handwritten(d) => assert_eq!(d.5, None),
        _ => panic!("wrong variant"),
    }
}

#[test]
fn cache_order_is_preserved() {
    let a1 = Note::Highlight(sample_annotation(None));
    let a2 = Note::Highlight(AnnotationData(
        "z:9".to_string(),
        "z:1".to_string(),
        5,
        6,
        "t".to_string(),
        None,
    ));
    let a3 = Note::Highlight(AnnotationData(
        "m:5".to_string(),
        "m:7".to_string(),
        1,
        2,
        "t".to_string(),
        None,
    ));
    let reader = ReaderDataFile {
        annotation_cache: Some(vec![(
            NoteType::Highlight,
            IntervalTree(vec![a1.clone(), a2.clone(), a3.clone()]),
        )]),
        ..Default::default()
    };
    let decoded = decode_reader_data(&encode_reader_data(&reader)).unwrap();
    let cache = decoded.annotation_cache.expect("cache must survive");
    assert_eq!(cache.len(), 1);
    assert_eq!(cache[0].0, NoteType::Highlight);
    assert_eq!(cache[0].1 .0, vec![a1, a2, a3]);
}

#[test]
fn reader_round_trip_full() {
    let reader = ReaderDataFile {
        font_preferences: Some(sample_font()),
        sync_lpr: Some(true),
        nis_info_data: Some("series-blob".to_string()),
        annotation_cache: Some(vec![
            (NoteType::Bookmark, IntervalTree(vec![Note::Bookmark(sample_annotation(None))])),
            (
                NoteType::Typed,
                IntervalTree(vec![Note::Typed(sample_annotation(Some("hello")))]),
            ),
        ]),
        apnx_key: Some(APNXKey(
            "key".to_string(),
            "application/x-apnx".to_string(),
            true,
            vec![3, 1, 4, 1, 5],
            7,
            8,
            9,
            "trail".to_string(),
        )),
        language_store: Some(LanguageStore("en-US".to_string(), 4)),
        reader_metrics: Some(vec![(
            "booklaunchedbefore".to_string(),
            "true".to_string(),
        )]),
    };
    let decoded = decode_reader_data(&encode_reader_data(&reader)).unwrap();
    assert_eq!(decoded, reader);
}

#[test]
fn timer_round_trip_full() {
    let timer = TimerDataFile {
        timer_model: Some(TimerModel(
            1,
            86_400_000,
            250_000,
            DoubleBits(0.42f64.to_bits()),
            TACWrapper(TimerAverageCalculator(
                2,
                3,
                vec![TADNWrapper(TimerAverageDistributionNormal(
                    10,
                    DoubleBits(1234.5f64.to_bits()),
                    DoubleBits(9.75f64.to_bits()),
                ))],
                vec![TAOWrapper(TimerAverageOutliers(
                    1,
                    DoubleBits(2.5f64.to_bits()),
                    DoubleBits(3.5f64.to_bits()),
                ))],
            )),
        )),
        fpr: Some(FPR("p".to_string(), 1, 2, "q".to_string(), "r".to_string())),
        book_info_store: Some(BookInfoStore(250_000, DoubleBits(0.42f64.to_bits()))),
        page_history_store: Some(vec![
            PHRWrapper(PageHistoryRecord("pos:1".to_string(), 111)),
            PHRWrapper(PageHistoryRecord("pos:2".to_string(), 222)),
        ]),
        whisperstore_migration_status: Some(WhisperstoreMigrationStatus(true, false)),
        lpr: Some(LPR(2, "lastpos".to_string(), 1_700_000_000_000)),
    };
    let decoded = decode_timer_data(&encode_timer_data(&timer)).unwrap();
    assert_eq!(decoded, timer);
}

#[test]
fn empty_files_round_trip_with_no_fields() {
    let reader = ReaderDataFile::default();
    let encoded = encode_reader_data(&reader);
    if let Value::Named(fields) = &encoded {
        assert_eq!(fields.len(), 0);
    } else {
        panic!("expected a named record");
    }
    assert_eq!(decode_reader_data(&encoded).unwrap(), reader);
    let timer = TimerDataFile::default();
    assert_eq!(decode_timer_data(&encode_timer_data(&timer)).unwrap(), timer);
}

#[test]
fn only_font_preferences_encodes_one_field() {
    let reader = ReaderDataFile {
        font_preferences: Some(sample_font()),
        ..Default::default()
    };
    let encoded = encode_reader_data(&reader);
    if let Value::Named(fields) = &encoded {
        assert_eq!(fields.len(), 1);
        assert_eq!(fields[0].0, "font.prefs");
    } else {
        panic!("expected a named record");
    }
    let decoded = decode_reader_data(&encoded).unwrap();
    assert_eq!(decoded, reader);
    assert_eq!(decoded.sync_lpr, None);
    assert_eq!(decoded.annotation_cache, None);
    assert_eq!(decoded.reader_metrics, None);
}

#[test]
fn font_preferences_arity_is_enforced() {
    let mut fields: Vec<Value> = vec![Value::Str("Bookerly".to_string())];
    for _ in 0..13 {
        fields.push(Value::Int(0));
    }
    fields.push(Value::Bool(false));
    assert_eq!(fields.len(), 15);
    let r = decode_font_preferences(&Value::Tuple(fields));
    assert_eq!(r, Err(KrdsError::ArityMismatch { expected: 16, actual: 15 }));
}

#[test]
fn unknown_top_level_fields_are_ignored() {
    let v = Value::Named(vec![
        ("mystery.future.field".to_string(), Value::Int(9)),
        ("sync_lpr".to_string(), Value::Bool(true)),
    ]);
    let decoded = decode_reader_data(&v).unwrap();
    assert_eq!(decoded.sync_lpr, Some(true));
    assert_eq!(decoded.font_preferences, None);
}

#[test]
fn scalar_widths_never_coerce() {
    assert_eq!(decode_i8(&Value::Byte(-3)), Ok(-3));
    assert_eq!(decode_i16(&Value::Short(300)), Ok(300));
    assert_eq!(decode_i32(&Value::Int(70_000)), Ok(70_000));
    assert_eq!(decode_i64(&Value::Long(1 << 40)), Ok(1 << 40));
    assert_eq!(decode_bool(&Value::Bool(true)), Ok(true));
    assert_eq!(decode_string(&Value::Str("s".to_string())), Ok("s".to_string()));
    let bits = DoubleBits(6.25f64.to_bits());
    assert_eq!(decode_double_bits(&Value::Double(6.25f64.to_bits())), Ok(bits));
    assert_eq!(
        decode_i32(&Value::Long(5)),
        Err(KrdsError::TypeMismatch { expected: ValueKind::Int, actual: ValueKind::Long })
    );
    assert_eq!(
        decode_i64(&Value::Int(5)),
        Err(KrdsError::TypeMismatch { expected: ValueKind::Long, actual: ValueKind::Int })
    );
    assert_eq!(
        decode_i8(&Value::Short(5)),
        Err(KrdsError::TypeMismatch { expected: ValueKind::Byte, actual: ValueKind::Short })
    );
}

#[test]
fn type_mismatch_reports_both_kinds() {
    let r = decode_font_preferences(&Value::Str("not a tuple".to_string()));
    assert_eq!(
        r,
        Err(KrdsError::TypeMismatch { expected: ValueKind::Tuple, actual: ValueKind::Str })
    );
}

#[test]
fn wrong_wrapper_tag_fails_with_tag() {
    let v = Value::Tagged("saved.avl.other.tree".to_string(), vec![]);
    let reader = Value::Named(vec![("annotation.cache.object".to_string(), Value::Mapping(
        vec![(Value::Int(1), v)],
    ))]);
    assert_eq!(
        decode_reader_data(&reader),
        Err(KrdsError::UnknownVariantTag("saved.avl.other.tree".to_string()))
    );
}
