use griffin::{Domain, DomainParseError};

#[test]
fn test_valid_basic_domain() {
    let domain_str = "example.com";
    let domain = Domain::try_from(domain_str).unwrap();
    assert_eq!(domain.top_level_domain, "com");
    assert_eq!(domain.domain, "example");
    assert!(domain.subdomain.is_empty());
}

#[test]
fn test_valid_subdomain() {
    let domain_str = "sub.example.com";
    let domain = Domain::try_from(domain_str).unwrap();
    assert_eq!(domain.top_level_domain, "com");
    assert_eq!(domain.domain, "example");
    assert_eq!(domain.subdomain, vec!["sub"]);
}

#[test]
fn test_valid_multiple_subdomains() {
    let domain_str = "a.b.c.example.com";
    let domain = Domain::try_from(domain_str).unwrap();
    assert_eq!(domain.top_level_domain, "com");
    assert_eq!(domain.domain, "example");
    assert_eq!(domain.subdomain, vec!["a", "b", "c"]);
}

#[test]
fn test_missing_tld() {
    let domain_str = "example";
    let result = Domain::try_from(domain_str);
    assert!(result.is_err());
    assert_eq!(result.unwrap_err(), DomainParseError::MissingTopLevelDomain);
}

#[test]
fn test_missing_domain() {
    let domain_str = ".com";
    let result = Domain::try_from(domain_str);
    assert!(result.is_err());
    assert_eq!(result.unwrap_err(), DomainParseError::MissingDomain);
}

#[test]
fn test_empty_input() {
    let domain_str = "";
    let result = Domain::try_from(domain_str);
    assert!(result.is_err());
    assert_eq!(result.unwrap_err(), DomainParseError::MissingTopLevelDomain);
}

