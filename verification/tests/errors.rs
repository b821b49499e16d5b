use sudachi_facade::SudachiError;

#[test]
fn test_describe_dictionary_load_error() {
    let err = SudachiError::DictionaryLoadError {
        message: "no such file".to_string(),
    };
    assert_eq!(err.message().as_str(), "no such file");
    assert_eq!(err.describe(), "Failed to load dictionary: no such file");
}

#[test]
fn test_describe_config_error() {
    let err = SudachiError::ConfigError {
        message: "bad json".to_string(),
    };
    assert_eq!(err.message().as_str(), "bad json");
    assert_eq!(err.describe(), "Failed to load config: bad json");
}

#[test]
fn test_describe_tokenize_error() {
    let err = SudachiError::TokenizeError {
        message: "lattice fault".to_string(),
    };
    assert_eq!(err.message().as_str(), "lattice fault");
    assert_eq!(err.describe(), "Tokenization failed: lattice fault");
}

#[test]
fn test_describe_invalid_argument() {
    let err = SudachiError::InvalidArgument {
        message: "dictionary path required".to_string(),
    };
    assert_eq!(err.message().as_str(), "dictionary path required");
    assert_eq!(err.describe(), "Invalid argument: dictionary path required");
}

#[test]
fn test_message_preserved_verbatim() {
    let diagnostic = "header checksum mismatch at offset 16";
    let err = SudachiError::DictionaryLoadError {
        message: diagnostic.to_string(),
    };
    assert_eq!(err.message().as_str(), diagnostic);
    assert!(!err.message().is_empty());
}
