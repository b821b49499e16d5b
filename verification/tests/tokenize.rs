use sudachi_facade::RawMorpheme;
use sudachi_facade::SudachiError;
use sudachi_facade::TokenizeMode;
use sudachi_facade::TokenizePlan;
use sudachi_facade::plan_tokenize;
use sudachi_facade::project_morphemes;
use sudachi_facade::empty_morphemes;
use sudachi_facade::tokenize_result;

fn raw(surface: &str, word_id: u32, begin: usize, end: usize) -> RawMorpheme {
    RawMorpheme {
        surface: surface.to_string(),
        part_of_speech: vec!["noun".to_string(), "common".to_string()],
        dictionary_form: surface.to_string(),
        normalized_form: surface.to_string(),
        reading_form: surface.to_string(),
        is_oov: false,
        word_id,
        begin,
        end,
    }
}

#[test]
fn test_plan_empty_input_every_mode() {
    assert!(matches!(plan_tokenize("", TokenizeMode::A), TokenizePlan::Empty));
    assert!(matches!(plan_tokenize("", TokenizeMode::B), TokenizePlan::Empty));
    assert!(matches!(plan_tokenize("", TokenizeMode::C), TokenizePlan::Empty));
    assert!(empty_morphemes().is_empty());
}

#[test]
fn test_plan_nonempty_input() {
    assert!(matches!(
        plan_tokenize("text", TokenizeMode::A),
        TokenizePlan::Analyze(_)
    ));
}

#[test]
fn test_projection_three_records() {
    let raws = vec![raw("a", 1, 0, 1), raw("bc", 2, 1, 3), raw("d", 3, 3, 4)];
    let infos = project_morphemes(&raws);
    assert_eq!(infos.len(), 3);
    for (info, raw) in infos.iter().zip(raws.iter()) {
        assert_eq!(info.surface, raw.surface);
        assert_eq!(info.part_of_speech, raw.part_of_speech);
        assert_eq!(info.dictionary_form, raw.dictionary_form);
        assert_eq!(info.normalized_form, raw.normalized_form);
        assert_eq!(info.reading_form, raw.reading_form);
        assert_eq!(info.is_oov, raw.is_oov);
        assert_eq!(info.word_id as u32, raw.word_id);
        assert_eq!(info.begin as usize, raw.begin);
        assert_eq!(info.end as usize, raw.end);
    }
    assert!(infos[0].begin <= infos[1].begin && infos[1].begin <= infos[2].begin);
}

#[test]
fn test_projection_word_id_bounds() {
    let fits = project_morphemes(&vec![raw("a", i32::MAX as u32, 0, 1)]);
    assert_eq!(fits[0].word_id, i32::MAX);
    let too_big = project_morphemes(&vec![raw("a", i32::MAX as u32 + 1, 0, 1)]);
    assert_eq!(too_big[0].word_id, -1);
}

#[test]
fn test_projection_offset_saturates() {
    let raws = vec![raw("a", 1, 0, u32::MAX as usize + 1)];
    let infos = project_morphemes(&raws);
    assert_eq!(infos[0].begin, 0);
    assert_eq!(infos[0].end, u32::MAX);
}

#[test]
fn test_projection_keeps_tag_arity() {
    let mut one = raw("a", 1, 0, 1);
    one.part_of_speech = vec![
        "n1".to_string(),
        "n2".to_string(),
        "n3".to_string(),
        "n4".to_string(),
        "n5".to_string(),
        "n6".to_string(),
    ];
    let mut none = raw("b", 2, 1, 2);
    none.part_of_speech = Vec::new();
    let infos = project_morphemes(&vec![one, none]);
    assert_eq!(infos[0].part_of_speech.len(), 6);
    assert_eq!(infos[0].part_of_speech[5], "n6");
    assert!(infos[1].part_of_speech.is_empty());
}

#[test]
fn test_tokenize_result_ok() {
    let result = tokenize_result(Ok(vec![raw("a", 1, 0, 1)]));
    let infos = result.expect("projection of a morpheme list must succeed");
    assert_eq!(infos.len(), 1);
    assert_eq!(infos[0].surface, "a");
}

#[test]
fn test_tokenize_result_ok_empty() {
    let result = tokenize_result(Ok(Vec::new()));
    assert!(result.expect("projection of no morphemes must succeed").is_empty());
}

#[test]
fn test_tokenize_result_failure_is_tokenize_error() {
    let result = tokenize_result(Err("lattice fault".to_string()));
    match result {
        Err(SudachiError::TokenizeError { message }) => assert_eq!(message, "lattice fault"),
        _ => panic!("a session failure must surface as TokenizeError"),
    }
}
