use vstd::prelude::*;
use crate::text::{join_chars, join_with, push_char, split_chars, split_on, views};

verus! {

/// Why a hostname could not be read as a [`Domain`].
#[derive(Debug, Clone, Copy, PartialEq, Eq, Structural)]
pub enum DomainParseError {
    MissingTopLevelDomain,
    MissingDomain,
}

impl DomainParseError {
    /// A human-readable description of the error.
    pub fn message(&self) -> (r: &'static str)
        ensures
            r@ == match self {
                DomainParseError::MissingTopLevelDomain => "Missing top level domain"@,
                DomainParseError::MissingDomain => "Missing domain"@,
            },
    {
        match self {
            DomainParseError::MissingTopLevelDomain => "Missing top level domain",
            DomainParseError::MissingDomain => "Missing domain",
        }
    }
}

/// A hostname split into its top-level domain, its domain label and the
/// subdomain labels in front of them.
#[derive(Debug, Clone)]
pub struct Domain {
    pub top_level_domain: String,
    pub domain: String,
    pub subdomain: Vec<String>,
}

/// The mathematical content of a [`Domain`].
pub ghost struct DomainModel {
    pub subdomain: Seq<Seq<char>>,
    pub domain: Seq<char>,
    pub top_level_domain: Seq<char>,
}

impl View for Domain {
    type V = DomainModel;

    open spec fn view(&self) -> DomainModel {
        DomainModel {
            subdomain: views(self.subdomain@),
            domain: self.domain@,
            top_level_domain: self.top_level_domain@,
        }
    }
}

/// The subdomain labels joined by dots, followed by a dot; nothing when
/// there are no subdomain labels.
pub open spec fn prefix_of(subdomain: Seq<Seq<char>>) -> Seq<char> {
    if subdomain.len() == 0 {
        Seq::empty()
    } else {
        join_with(subdomain, '.').push('.')
    }
}

/// The subdomain part, then the domain label.
pub open spec fn base_of(subdomain: Seq<Seq<char>>, domain: Seq<char>) -> Seq<char> {
    prefix_of(subdomain) + domain
}

/// The hostname that a domain model stands for.
pub open spec fn hostname_of(m: DomainModel) -> Seq<char> {
    base_of(m.subdomain, m.domain).push('.') + m.top_level_domain
}

/// What reading `s` as a hostname gives: the last dot-separated label is the
/// top-level domain, the one before it the domain label, the rest subdomain
/// labels.
pub open spec fn parse_spec(s: Seq<char>) -> Result<DomainModel, DomainParseError> {
    let labels = split_on(s, '.');
    let n = labels.len();
    if n < 2 || labels[n - 1].len() == 0 {
        Err(DomainParseError::MissingTopLevelDomain)
    } else if labels[n - 2].len() == 0 {
        Err(DomainParseError::MissingDomain)
    } else {
        Ok(DomainModel {
            subdomain: labels.subrange(0, n - 2),
            domain: labels[n - 2],
            top_level_domain: labels[n - 1],
        })
    }
}

/// A hostname whose last two dot-separated labels are non-empty.
pub open spec fn has_domain_and_tld(h: Seq<char>) -> bool {
    let labels = split_on(h, '.');
    &&& labels.len() >= 2
    &&& labels[labels.len() - 1].len() > 0
    &&& labels[labels.len() - 2].len() > 0
}

/// Reading a hostname and writing it back gives the same text.
pub proof fn lemma_parse_serialize_round_trip(h: Seq<char>)
    requires
        has_domain_and_tld(h),
    ensures
        parse_spec(h) is Ok,
        hostname_of(parse_spec(h)->Ok_0) == h,
{
    let labels = split_on(h, '.');
    let n = labels.len();
    crate::text::lemma_join_split(h, '.');
    let m = parse_spec(h)->Ok_0;
    let front = labels.drop_last();
    assert(front.last() == m.domain);
    assert(join_with(labels, '.') == join_with(front, '.').push('.') + labels.last());
    if n == 2 {
        assert(m.subdomain.len() == 0);
        assert(front.len() == 1);
        assert(join_with(front, '.') == m.domain);
        assert(base_of(m.subdomain, m.domain) == m.domain);
    } else {
        assert(front.drop_last() == m.subdomain);
        assert(front.len() >= 2);
        assert(join_with(front, '.') == join_with(m.subdomain, '.').push('.') + m.domain);
        assert(base_of(m.subdomain, m.domain) == join_with(front, '.'));
    }
}

/// A domain model that a hostname can stand for: non-empty domain label and
/// top-level domain, and no dot inside any label.
pub open spec fn is_well_formed(m: DomainModel) -> bool {
    &&& m.domain.len() > 0
    &&& m.top_level_domain.len() > 0
    &&& !m.domain.contains('.')
    &&& !m.top_level_domain.contains('.')
    &&& forall|i: int| 0 <= i < m.subdomain.len() ==> !(#[trigger] m.subdomain[i]).contains('.')
}

/// Writing a well-formed domain out and reading it back gives the same
/// domain.
pub proof fn lemma_serialize_parse_round_trip(m: DomainModel)
    requires
        is_well_formed(m),
    ensures
        parse_spec(hostname_of(m)) == Ok::<DomainModel, DomainParseError>(m),
{
    let labels = m.subdomain.push(m.domain).push(m.top_level_domain);
    let n = labels.len();
    assert forall|i: int| 0 <= i < n implies !(#[trigger] labels[i]).contains('.') by {
        if i < m.subdomain.len() {
            assert(labels[i] == m.subdomain[i]);
        }
    }
    crate::text::lemma_split_join(labels, '.');
    let with_domain = m.subdomain.push(m.domain);
    assert(labels.drop_last() == with_domain);
    assert(with_domain.drop_last() == m.subdomain);
    if m.subdomain.len() == 0 {
        assert(join_with(with_domain, '.') == m.domain);
        assert(base_of(m.subdomain, m.domain) == m.domain);
    } else {
        assert(join_with(with_domain, '.') == join_with(m.subdomain, '.').push('.') + m.domain);
    }
    assert(base_of(m.subdomain, m.domain) == join_with(with_domain, '.'));
    assert(hostname_of(m) == join_with(labels, '.'));
    assert(labels.subrange(0, n - 2) == m.subdomain);
}

impl Domain {
    /// Reads a dotted hostname.
    pub fn try_from(s: &str) -> (r: Result<Domain, DomainParseError>)
        ensures
            match r {
                Ok(d) => parse_spec(s@) == Ok::<DomainModel, DomainParseError>(d@),
                Err(e) => parse_spec(s@) == Err::<DomainModel, DomainParseError>(e),
            },
    {
        let mut labels = split_chars(s, '.');
        let ghost all = labels@;
        proof {
            crate::text::lemma_split_nonempty(s@, '.');
        }
        let n = labels.len();
        if n < 2 {
            return Err(DomainParseError::MissingTopLevelDomain);
        }
        let top_level_domain = labels.pop().unwrap();
        assert(top_level_domain@ == views(all)[n - 1]);
        if top_level_domain.unicode_len() == 0 {
            return Err(DomainParseError::MissingTopLevelDomain);
        }
        let domain = labels.pop().unwrap();
        assert(domain@ == views(all)[n - 2]);
        if domain.unicode_len() == 0 {
            return Err(DomainParseError::MissingDomain);
        }
        assert(labels@ == all.subrange(0, n - 2));
        assert(views(labels@) == views(all).subrange(0, n - 2));
        Ok(Domain { top_level_domain, domain, subdomain: labels })
    }

    /// The hostname without its top-level domain.
    pub fn base_domain(&self) -> (r: String)
        ensures
            r@ == base_of(self@.subdomain, self@.domain),
    {
        let mut out = self.subdomain_prefix();
        out.append(self.domain.as_str());
        out
    }

    /// The subdomain labels joined by dots, followed by a dot; empty when
    /// there are no subdomain labels.
    pub fn subdomain_prefix(&self) -> (r: String)
        ensures
            r@ == prefix_of(self@.subdomain),
    {
        if self.subdomain.len() == 0 {
            String::new()
        } else {
            let mut out = join_chars(&self.subdomain, '.');
            push_char(&mut out, '.');
            out
        }
    }

    /// The full dotted hostname.
    pub fn hostname(&self) -> (r: String)
        ensures
            r@ == hostname_of(self@),
    {
        let mut out = self.base_domain();
        push_char(&mut out, '.');
        out.append(self.top_level_domain.as_str());
        out
    }
}

impl<'a> From<&'a Domain> for String {
    fn from(d: &'a Domain) -> (r: String)
        ensures
            r@ == hostname_of(d@),
    {
        d.hostname()
    }
}

impl<'a> vstd::std_specs::convert::FromSpecImpl<&'a Domain> for String {
    open spec fn obeys_from_spec() -> bool {
        false
    }

    open spec fn from_spec(d: &'a Domain) -> String {
        arbitrary()
    }
}

} // verus!
