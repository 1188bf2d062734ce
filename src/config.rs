use vstd::prelude::*;
use crate::domain::{Domain, DomainModel};
use crate::fuzzer::{strategy_named, DomainFuzzerError, FuzzerStrategy};
use crate::text::{same_text, views};

verus! {

/// The lookup ceiling used when none is given.
pub const DEFAULT_WORKERS: usize = 8;

/// The strategies used when none are named.
pub open spec fn default_fuzzer_names() -> Seq<Seq<char>> {
    seq![
        "addition"@,
        "bitsquatting"@,
        "dot-typo"@,
        "hyphen-typo"@,
        "omission"@,
        "plural"@,
        "repetition"@,
    ]
}

/// The names of the strategies used when none are named.
pub fn default_fuzzers() -> (r: Vec<String>)
    ensures
        views(r@) == default_fuzzer_names(),
{
    let mut r: Vec<String> = Vec::new();
    r.push(String::from_str("addition"));
    r.push(String::from_str("bitsquatting"));
    r.push(String::from_str("dot-typo"));
    r.push(String::from_str("hyphen-typo"));
    r.push(String::from_str("omission"));
    r.push(String::from_str("plural"));
    r.push(String::from_str("repetition"));
    assert(views(r@) =~= default_fuzzer_names());
    r
}

/// Why a configuration could not be built.
#[derive(Debug, Clone, PartialEq, Eq)]
pub enum ConfigError {
    /// A required setting was not given; holds its name.
    MissingParameter(String),
    /// A setting could not be read; holds its name, what was expected, and why.
    ParseError(String, String, String),
}

pub ghost enum ConfigErrorModel {
    MissingParameter(Seq<char>),
    ParseError(Seq<char>, Seq<char>, Seq<char>),
}

impl View for ConfigError {
    type V = ConfigErrorModel;

    open spec fn view(&self) -> ConfigErrorModel {
        match self {
            ConfigError::MissingParameter(p) => ConfigErrorModel::MissingParameter(p@),
            ConfigError::ParseError(p, e, why) => ConfigErrorModel::ParseError(p@, e@, why@),
        }
    }
}

impl ConfigError {
    /// A human-readable description of the error.
    pub fn message(&self) -> (r: String)
        ensures
            r@ == match self@ {
                ConfigErrorModel::MissingParameter(p) => "Missing parameter: "@ + p,
                ConfigErrorModel::ParseError(p, e, why) => "Could not parse "@ + p + " into "@ + e
                    + ". Reason: "@ + why,
            },
    {
        match self {
            ConfigError::MissingParameter(p) => {
                let mut r = String::from_str("Missing parameter: ");
                r.append(p.as_str());
                r
            },
            ConfigError::ParseError(p, e, why) => {
                let mut r = String::from_str("Could not parse ");
                r.append(p.as_str());
                r.append(" into ");
                r.append(e.as_str());
                r.append(". Reason: ");
                r.append(why.as_str());
                r
            },
        }
    }
}

/// A validated configuration of a scan.
#[derive(Debug)]
pub struct Config {
    pub domain: Domain,
    pub workers: usize,
    pub fuzzers: Vec<FuzzerStrategy>,
}

pub ghost struct ConfigModel {
    pub domain: DomainModel,
    pub workers: nat,
    pub fuzzers: Seq<FuzzerStrategy>,
}

impl View for Config {
    type V = ConfigModel;

    open spec fn view(&self) -> ConfigModel {
        ConfigModel { domain: self.domain@, workers: self.workers as nat, fuzzers: self.fuzzers@ }
    }
}

/// Settings gathered from one source, each possibly missing.
#[derive(Debug)]
pub struct PartialConfig {
    pub domain: Option<Domain>,
    pub workers: Option<usize>,
    pub fuzzers: Option<Vec<String>>,
}

pub ghost struct PartialConfigModel {
    pub domain: Option<DomainModel>,
    pub workers: Option<usize>,
    pub fuzzers: Option<Seq<Seq<char>>>,
}

impl View for PartialConfig {
    type V = PartialConfigModel;

    open spec fn view(&self) -> PartialConfigModel {
        PartialConfigModel {
            domain: match self.domain {
                Some(d) => Some(d@),
                None => None,
            },
            workers: self.workers,
            fuzzers: match self.fuzzers {
                Some(f) => Some(views(f@)),
                None => None,
            },
        }
    }
}

impl Default for PartialConfig {
    fn default() -> (r: PartialConfig)
        ensures
            r@ == (PartialConfigModel { domain: None, workers: None, fuzzers: None }),
    {
        PartialConfig { domain: None, workers: None, fuzzers: None }
    }
}

impl PartialConfig {
    /// Overlays `other` on `self`: each setting that `other` holds wins.
    pub fn merge(self, other: PartialConfig) -> (r: PartialConfig)
        ensures
            r@.domain == (if other@.domain is Some { other@.domain } else { self@.domain }),
            r@.workers == (if other@.workers is Some { other@.workers } else { self@.workers }),
            r@.fuzzers == (if other@.fuzzers is Some { other@.fuzzers } else { self@.fuzzers }),
    {
        let PartialConfig { domain, workers, fuzzers } = self;
        let PartialConfig { domain: other_domain, workers: other_workers, fuzzers: other_fuzzers } = other;
        PartialConfig {
            domain: match other_domain {
                Some(d) => Some(d),
                None => domain,
            },
            workers: match other_workers {
                Some(w) => Some(w),
                None => workers,
            },
            fuzzers: match other_fuzzers {
                Some(f) => Some(f),
                None => fuzzers,
            },
        }
    }
}

/// The names with each repeat of an earlier name left out.
pub open spec fn dedup_names(names: Seq<Seq<char>>) -> Seq<Seq<char>>
    decreases names.len(),
{
    if names.len() == 0 {
        Seq::empty()
    } else {
        let front = dedup_names(names.drop_last());
        if front.contains(names.last()) {
            front
        } else {
            front.push(names.last())
        }
    }
}

/// The first name that stands for no strategy, if any.
pub open spec fn first_unknown(names: Seq<Seq<char>>) -> Option<Seq<char>>
    decreases names.len(),
{
    if names.len() == 0 {
        None
    } else {
        match first_unknown(names.drop_last()) {
            Some(n) => Some(n),
            None => if strategy_named(names.last()) is None {
                Some(names.last())
            } else {
                None
            },
        }
    }
}

proof fn lemma_first_unknown_prefix(names: Seq<Seq<char>>, k: int)
    requires
        0 <= k <= names.len(),
        first_unknown(names.subrange(0, k)) is Some,
    ensures
        first_unknown(names) == first_unknown(names.subrange(0, k)),
    decreases names.len() - k,
{
    if k < names.len() {
        assert(names.subrange(0, k + 1).drop_last() == names.subrange(0, k));
        lemma_first_unknown_prefix(names, k + 1);
    } else {
        assert(names.subrange(0, k) == names);
    }
}

/// The strategies that the names stand for.
pub open spec fn strategies_of(names: Seq<Seq<char>>) -> Seq<FuzzerStrategy> {
    names.map_values(|n: Seq<char>| strategy_named(n)->Some_0)
}

/// What building a configuration from `p` gives.
pub open spec fn build_spec(p: PartialConfigModel) -> Result<ConfigModel, ConfigErrorModel> {
    let workers: nat = match p.workers {
        Some(w) => w as nat,
        None => DEFAULT_WORKERS as nat,
    };
    let names = dedup_names(match p.fuzzers {
        Some(f) => f,
        None => default_fuzzer_names(),
    });
    match p.domain {
        None => Err(ConfigErrorModel::MissingParameter("domain"@)),
        Some(d) => if workers == 0 {
            Err(
                ConfigErrorModel::ParseError(
                    "workers"@,
                    "positive integer"@,
                    "Value must be greater than zero"@,
                ),
            )
        } else {
            match first_unknown(names) {
                Some(n) => Err(
                    ConfigErrorModel::ParseError(
                        "fuzzers"@,
                        "array of fuzzers"@,
                        "Domain fuzzer \""@ + n + "\" does not exist"@,
                    ),
                ),
                None => Ok(ConfigModel { domain: d, workers, fuzzers: strategies_of(names) }),
            }
        },
    }
}

/// Whether `s` is among the strings of `v`.
fn contains_text(v: &Vec<String>, s: &str) -> (r: bool)
    ensures
        r == views(v@).contains(s@),
{
    let mut i: usize = 0;
    while i < v.len()
        invariant
            i <= v@.len(),
            forall|j: int| 0 <= j < i ==> v@[j]@ != s@,
        decreases v@.len() - i,
    {
        if same_text(v[i].as_str(), s) {
            assert(views(v@)[i as int] == s@);
            return true;
        }
        i = i + 1;
    }
    false
}

/// The names with each repeat of an earlier name left out.
fn dedup(names: &Vec<String>) -> (r: Vec<String>)
    ensures
        views(r@) == dedup_names(views(names@)),
{
    let mut out: Vec<String> = Vec::new();
    let mut i: usize = 0;
    while i < names.len()
        invariant
            i <= names@.len(),
            views(out@) == dedup_names(views(names@).subrange(0, i as int)),
        decreases names@.len() - i,
    {
        assert(views(names@).subrange(0, i + 1).drop_last() == views(names@).subrange(0, i as int));
        if !contains_text(&out, names[i].as_str()) {
            let ghost before = out@;
            out.push(names[i].clone());
            assert(views(out@) == views(before).push(names@[i as int]@));
        }
        i = i + 1;
    }
    assert(views(names@).subrange(0, names@.len() as int) == views(names@));
    out
}

/// The strategies that the names stand for, or the error for the first name
/// that stands for none.
fn resolve(names: &Vec<String>) -> (r: Result<Vec<FuzzerStrategy>, DomainFuzzerError>)
    ensures
        match r {
            Ok(v) => first_unknown(views(names@)) is None && v@ == strategies_of(views(names@)),
            Err(DomainFuzzerError::DomainFuzzerDoesNotExist(n)) => first_unknown(views(names@)) == Some(n@),
        },
{
    let mut out: Vec<FuzzerStrategy> = Vec::new();
    let mut i: usize = 0;
    while i < names.len()
        invariant
            i <= names@.len(),
            first_unknown(views(names@).subrange(0, i as int)) is None,
            out@ == strategies_of(views(names@).subrange(0, i as int)),
        decreases names@.len() - i,
    {
        let ghost prefix = views(names@).subrange(0, i + 1);
        assert(prefix.drop_last() == views(names@).subrange(0, i as int));
        match FuzzerStrategy::try_from(names[i].as_str()) {
            Ok(f) => {
                out.push(f);
                assert(out@ == strategies_of(prefix));
            },
            Err(e) => {
                proof {
                    lemma_first_unknown_prefix(views(names@), i + 1);
                }
                return Err(e);
            },
        }
        i = i + 1;
    }
    assert(views(names@).subrange(0, names@.len() as int) == views(names@));
    Ok(out)
}

/// Collects settings and validates them into a [`Config`].
pub struct ConfigBuilder {
    partial_config: PartialConfig,
}

impl ConfigBuilder {
    /// The settings gathered so far.
    pub closed spec fn settings(&self) -> PartialConfigModel {
        self.partial_config@
    }

    /// A builder with no settings.
    pub fn new() -> (r: ConfigBuilder)
        ensures
            r.settings() == (PartialConfigModel { domain: None, workers: None, fuzzers: None }),
    {
        ConfigBuilder { partial_config: PartialConfig::default() }
    }

    /// Sets the domain to scan.
    pub fn domain(self, domain: Domain) -> (r: ConfigBuilder)
        ensures
            r.settings() == (PartialConfigModel { domain: Some(domain@), ..self.settings() }),
    {
        let ConfigBuilder { partial_config } = self;
        ConfigBuilder { partial_config: PartialConfig { domain: Some(domain), ..partial_config } }
    }

    /// Sets the ceiling on lookups in flight.
    pub fn workers(self, workers: usize) -> (r: ConfigBuilder)
        ensures
            r.settings() == (PartialConfigModel { workers: Some(workers), ..self.settings() }),
    {
        let ConfigBuilder { partial_config } = self;
        ConfigBuilder { partial_config: PartialConfig { workers: Some(workers), ..partial_config } }
    }

    /// Sets the names of the strategies to run.
    pub fn fuzzers(self, fuzzers: Vec<String>) -> (r: ConfigBuilder)
        ensures
            r.settings() == (PartialConfigModel { fuzzers: Some(views(fuzzers@)), ..self.settings() }),
    {
        let ConfigBuilder { partial_config } = self;
        ConfigBuilder { partial_config: PartialConfig { fuzzers: Some(fuzzers), ..partial_config } }
    }

    /// Validates the settings: the domain is required, the ceiling defaults
    /// to eight and must be positive, the strategy names default to all of
    /// them, repeats are dropped and each name must stand for a strategy.
    pub fn build(self) -> (r: Result<Config, ConfigError>)
        ensures
            match r {
                Ok(c) => build_spec(self.settings()) == Ok::<ConfigModel, ConfigErrorModel>(c@),
                Err(e) => build_spec(self.settings()) == Err::<ConfigModel, ConfigErrorModel>(e@),
            },
    {
        let ghost p = self.settings();
        let ConfigBuilder { partial_config } = self;
        let PartialConfig { domain, workers, fuzzers } = partial_config;
        let domain = match domain {
            Some(d) => d,
            None => {
                return Err(ConfigError::MissingParameter(String::from_str("domain")));
            },
        };
        let workers = match workers {
            Some(w) => w,
            None => DEFAULT_WORKERS,
        };
        if workers == 0 {
            return Err(
                ConfigError::ParseError(
                    String::from_str("workers"),
                    String::from_str("positive integer"),
                    String::from_str("Value must be greater than zero"),
                ),
            );
        }
        let names = match fuzzers {
            Some(f) => f,
            None => default_fuzzers(),
        };
        let names = dedup(&names);
        match resolve(&names) {
            Ok(fuzzers) => Ok(Config { domain, workers, fuzzers }),
            Err(e) => Err(
                ConfigError::ParseError(
                    String::from_str("fuzzers"),
                    String::from_str("array of fuzzers"),
                    e.message(),
                ),
            ),
        }
    }
}

impl Config {
    /// Builds a configuration from gathered settings.
    pub fn try_from(config: PartialConfig) -> (r: Result<Config, ConfigError>)
        ensures
            match r {
                Ok(c) => build_spec(config@) == Ok::<ConfigModel, ConfigErrorModel>(c@),
                Err(e) => build_spec(config@) == Err::<ConfigModel, ConfigErrorModel>(e@),
            },
    {
        let PartialConfig { domain, workers, fuzzers } = config;
        let mut builder = ConfigBuilder::new();
        match domain {
            Some(d) => {
                builder = builder.domain(d);
            },
            None => {},
        }
        match workers {
            Some(w) => {
                builder = builder.workers(w);
            },
            None => {},
        }
        match fuzzers {
            Some(f) => {
                builder = builder.fuzzers(f);
            },
            None => {},
        }
        builder.build()
    }
}

} // verus!
