pub mod config;
pub mod domain;
pub mod env;
pub mod fuzzer;
pub mod scan;
pub mod text;

pub use config::{Config, ConfigBuilder, ConfigError, PartialConfig};
pub use domain::{Domain, DomainParseError};
pub use env::PartialConfigEnvLoader;
pub use fuzzer::addition::AdditionFuzzerStrategy;
pub use fuzzer::azerty_typo::AzertyTypoFuzzer;
pub use fuzzer::bitsquatting::BitsquattingFuzzerStrategy;
pub use fuzzer::cyrillic::CyrillicFuzzer;
pub use fuzzer::dot_typo::DotTypoFuzzerStrategy;
pub use fuzzer::homoglyph::HomoglyphFuzzer;
pub use fuzzer::hyphen::HyphenFuzzer;
pub use fuzzer::hyphen_typo::HyphenTypoFuzzerStrategy;
pub use fuzzer::insertion::InsertionFuzzer;
pub use fuzzer::map::MapFuzzer;
pub use fuzzer::omission::OmissionFuzzerStrategy;
pub use fuzzer::plural::PluralFuzzerStrategy;
pub use fuzzer::qwerty_typo::QwertyTypoFuzzer;
pub use fuzzer::qwertz_typo::QwertzTypoFuzzer;
pub use fuzzer::repetition::RepetitionFuzzerStrategy;
pub use fuzzer::{DomainFuzzer, Fuzzer, DomainFuzzerError, FuzzerStrategy};
pub use scan::{outcome_of, valid_candidates, ScanOutcome, ScanStep, Scheduler};
