use lyra::framework::LyraError;
use lyra::runtime::WorkerError;

#[test]
fn every_kind_of_failure_carries_its_description() {
    let made = vec![
        (LyraError::config("c".to_string()), LyraError::Config("c".to_string())),
        (LyraError::parsing("p".to_string()), LyraError::Parsing("p".to_string())),
        (LyraError::storage("s".to_string()), LyraError::Storage("s".to_string())),
        (LyraError::cbor("b".to_string()), LyraError::Cbor("b".to_string())),
        (LyraError::missing_utxo("m".to_string()), LyraError::MissingUtxo("m".to_string())),
        (LyraError::runtime("r".to_string()), LyraError::Runtime("r".to_string())),
    ];
    let texts = ["c", "p", "s", "b", "m", "r"];
    for ((built, expected), text) in made.iter().zip(texts) {
        assert_eq!(built, expected);
        assert_eq!(built.message(), text);
        assert_eq!(&built.clone(), expected);
        assert_eq!(WorkerError::of(built), WorkerError::Panic);
    }
    assert_ne!(LyraError::config("x".to_string()), LyraError::parsing("x".to_string()));
}
