use std::collections::HashSet;

use griffin::{
    AdditionFuzzerStrategy, BitsquattingFuzzerStrategy, Domain, DomainFuzzer, DotTypoFuzzerStrategy,
    HyphenTypoFuzzerStrategy, OmissionFuzzerStrategy, PluralFuzzerStrategy, RepetitionFuzzerStrategy,
};

#[test]
fn test_addition_fuzzer_with_simple_domain() {
    let domain = Domain::try_from("example.com").unwrap();

    let fuzz = AdditionFuzzerStrategy.fuzz(&domain);
    let expected = [
        "example0.com",
        "example1.com",
        "example2.com",
        "example3.com",
        "example4.com",
        "example5.com",
        "example6.com",
        "example7.com",
        "example8.com",
        "example9.com",
        "examplea.com",
        "exampleb.com",
        "examplec.com",
        "exampled.com",
        "examplee.com",
        "examplef.com",
        "exampleg.com",
        "exampleh.com",
        "examplei.com",
        "examplej.com",
        "examplek.com",
        "examplel.com",
        "examplem.com",
        "examplen.com",
        "exampleo.com",
        "examplep.com",
        "exampleq.com",
        "exampler.com",
        "examples.com",
        "examplet.com",
        "exampleu.com",
        "examplev.com",
        "examplew.com",
        "examplex.com",
        "exampley.com",
        "examplez.com",
    ]
    .iter()
    .map(|s| s.to_string())
    .collect::<Vec<_>>();

    assert_eq!(
        HashSet::<&String>::from_iter(&fuzz),
        HashSet::<&String>::from_iter(&expected)
    );
    assert_eq!(fuzz.len(), expected.len());
}

#[test]
fn test_addition_fuzzer_with_subdomain() {
    let domain = Domain::try_from("sub.example.com").unwrap();

    let fuzz = AdditionFuzzerStrategy.fuzz(&domain);
    let expected = [
        "sub.example0.com",
        "sub.example1.com",
        "sub.example2.com",
        "sub.example3.com",
        "sub.example4.com",
        "sub.example5.com",
        "sub.example6.com",
        "sub.example7.com",
        "sub.example8.com",
        "sub.example9.com",
        "sub.examplea.com",
        "sub.exampleb.com",
        "sub.examplec.com",
        "sub.exampled.com",
        "sub.examplee.com",
        "sub.examplef.com",
        "sub.exampleg.com",
        "sub.exampleh.com",
        "sub.examplei.com",
        "sub.examplej.com",
        "sub.examplek.com",
        "sub.examplel.com",
        "sub.examplem.com",
        "sub.examplen.com",
        "sub.exampleo.com",
        "sub.examplep.com",
        "sub.exampleq.com",
        "sub.exampler.com",
        "sub.examples.com",
        "sub.examplet.com",
        "sub.exampleu.com",
        "sub.examplev.com",
        "sub.examplew.com",
        "sub.examplex.com",
        "sub.exampley.com",
        "sub.examplez.com",
    ]
    .iter()
    .map(|s| s.to_string())
    .collect::<Vec<_>>();

    assert_eq!(
        HashSet::<&String>::from_iter(&fuzz),
        HashSet::<&String>::from_iter(&expected)
    );
    assert_eq!(fuzz.len(), expected.len());
}

#[test]
fn test_addition_fuzzer_with_single_char() {
    let domain = Domain::try_from("x.com").unwrap();

    let fuzz = AdditionFuzzerStrategy.fuzz(&domain);
    let expected = [
        "x0.com", "x1.com", "x2.com", "x3.com", "x4.com", "x5.com", "x6.com", "x7.com",
        "x8.com", "x9.com", "xa.com", "xb.com", "xc.com", "xd.com", "xe.com", "xf.com",
        "xg.com", "xh.com", "xi.com", "xj.com", "xk.com", "xl.com", "xm.com", "xn.com",
        "xo.com", "xp.com", "xq.com", "xr.com", "xs.com", "xt.com", "xu.com", "xv.com",
        "xw.com", "xx.com", "xy.com", "xz.com",
    ]
    .iter()
    .map(|s| s.to_string())
    .collect::<Vec<_>>();

    assert_eq!(
        HashSet::<&String>::from_iter(&fuzz),
        HashSet::<&String>::from_iter(&expected)
    );
    assert_eq!(fuzz.len(), expected.len());
}

#[test]
fn test_bitsquatting_fuzzer_with_simple_domain() {
    let domain = Domain::try_from("example.com").unwrap();

    let fuzz = BitsquattingFuzzerStrategy.fuzz(&domain);
    let expected = [
        "ezample.com",
        "exemple.com",
        "e8ample.com",
        "gxample.com",
        "axample.com",
        "exalple.com",
        "exampne.com",
        "examplm.com",
        "exampme.com",
        "examplu.com",
        "exampla.com",
        "exampld.com",
        "exaeple.com",
        "eximple.com",
        "examplg.com",
        "examqle.com",
        "examtle.com",
        "examrle.com",
        "ehample.com",
        "mxample.com",
        "uxample.com",
        "exaiple.com",
        "dxample.com",
        "exa-ple.com",
        "eyample.com",
        "epample.com",
        "exqmple.com",
        "exaople.com",
        "exam0le.com",
        "examxle.com",
        "exampde.com",
        "excmple.com",
        "examphe.com",
    ]
    .iter()
    .map(|s| s.to_string())
    .collect::<Vec<_>>();

    assert_eq!(
        HashSet::<&String>::from_iter(&fuzz),
        HashSet::<&String>::from_iter(&expected)
    );
    assert_eq!(fuzz.len(), expected.len());
}

#[test]
fn test_bitsquatting_fuzzer_with_subdomain() {
    let domain = Domain::try_from("sub.example.com").unwrap();

    let fuzz = BitsquattingFuzzerStrategy.fuzz(&domain);
    let expected = [
        "sub.ezample.com",
        "sub.exemple.com",
        "sub.e8ample.com",
        "sub.gxample.com",
        "sub.axample.com",
        "sub.exalple.com",
        "sub.exampne.com",
        "sub.examplm.com",
        "sub.exampme.com",
        "sub.examplu.com",
        "sub.exampla.com",
        "sub.exampld.com",
        "sub.exaeple.com",
        "sub.eximple.com",
        "sub.examplg.com",
        "sub.examqle.com",
        "sub.examtle.com",
        "sub.examrle.com",
        "sub.ehample.com",
        "sub.mxample.com",
        "sub.uxample.com",
        "sub.exaiple.com",
        "sub.dxample.com",
        "sub.exa-ple.com",
        "sub.eyample.com",
        "sub.epample.com",
        "sub.exqmple.com",
        "sub.exaople.com",
        "sub.exam0le.com",
        "sub.examxle.com",
        "sub.exampde.com",
        "sub.excmple.com",
        "sub.examphe.com",
    ]
    .iter()
    .map(|s| s.to_string())
    .collect::<Vec<_>>();

    assert_eq!(
        HashSet::<&String>::from_iter(&fuzz),
        HashSet::<&String>::from_iter(&expected)
    );
    assert_eq!(fuzz.len(), expected.len());
}

#[test]
fn test_bitsquatting_fuzzer_with_single_char() {
    let domain = Domain::try_from("x.com").unwrap();

    let fuzz = BitsquattingFuzzerStrategy.fuzz(&domain);
    let expected = ["p.com", "8.com", "y.com", "z.com", "h.com"]
        .iter()
        .map(|s| s.to_string())
        .collect::<Vec<_>>();

    assert_eq!(
        HashSet::<&String>::from_iter(&fuzz),
        HashSet::<&String>::from_iter(&expected)
    );
    assert_eq!(fuzz.len(), expected.len());
}

#[test]
fn test_dot_typo_fuzzer_with_simple_domain() {
    let domain = Domain::try_from("example.com").unwrap();

    let fuzz = DotTypoFuzzerStrategy.fuzz(&domain);
    let expected = [
        "exampl.e.com",
        "examp.le.com",
        "exam.ple.com",
        "exa.mple.com",
        "ex.ample.com",
        "e.xample.com",
    ]
    .iter()
    .map(|s| s.to_string())
    .collect::<Vec<_>>();

    assert_eq!(
        HashSet::<&String>::from_iter(&fuzz),
        HashSet::<&String>::from_iter(&expected)
    );
    assert_eq!(fuzz.len(), expected.len());
}

#[test]
fn test_dot_typo_fuzzer_with_subdomain() {
    let domain = Domain::try_from("sub.example.com").unwrap();

    let fuzz = DotTypoFuzzerStrategy.fuzz(&domain);
    let expected = [
        "sub.e.xample.com",
        "sub.ex.ample.com",
        "sub.exa.mple.com",
        "sub.exam.ple.com",
        "sub.examp.le.com",
        "sub.exampl.e.com",
    ]
    .iter()
    .map(|s| s.to_string())
    .collect::<Vec<_>>();

    assert_eq!(
        HashSet::<&String>::from_iter(&fuzz),
        HashSet::<&String>::from_iter(&expected)
    );
    assert_eq!(fuzz.len(), expected.len());
}

#[test]
fn test_dot_typo_fuzzer_shouldnt_repeat() {
    let domain = Domain::try_from("exampl.e.com").unwrap();

    let fuzz = DotTypoFuzzerStrategy.fuzz(&domain);
    let expected: Vec<String> = Vec::new();

    assert_eq!(
        HashSet::<&String>::from_iter(&fuzz),
        HashSet::<&String>::from_iter(&expected)
    );
    assert_eq!(fuzz.len(), expected.len());
}

#[test]
fn test_dot_typo_fuzzer_with_single_char() {
    let domain = Domain::try_from("x.com").unwrap();

    let fuzz = DotTypoFuzzerStrategy.fuzz(&domain);
    let expected = [];

    assert_eq!(
        HashSet::<&String>::from_iter(&fuzz),
        HashSet::<&String>::from_iter(&expected)
    );
    assert_eq!(fuzz.len(), expected.len());
}

#[test]
fn test_hyphen_typo_fuzzer_with_simple_domain() {
    let domain = Domain::try_from("example.com").unwrap();

    let fuzz = HyphenTypoFuzzerStrategy::default()
        .fuzz(&domain);
    let expected = [
        "exampl-e.com",
        "examp-le.com",
        "exam-ple.com",
        "exa-mple.com",
        "ex-ample.com",
        "e-xample.com",
    ]
    .iter()
    .map(|s| s.to_string())
    .collect::<Vec<_>>();

    assert_eq!(
        HashSet::<&String>::from_iter(&fuzz),
        HashSet::<&String>::from_iter(&expected)
    );
    assert_eq!(fuzz.len(), expected.len());
}

#[test]
fn test_hyphen_typo_fuzzer_with_subdomain() {
    let domain = Domain::try_from("sub.example.com").unwrap();

    let fuzz = HyphenTypoFuzzerStrategy::default()
        .fuzz(&domain);
    let expected = [
        "sub.e-xample.com",
        "sub.ex-ample.com",
        "sub.exa-mple.com",
        "sub.exam-ple.com",
        "sub.examp-le.com",
        "sub.exampl-e.com",
    ]
    .iter()
    .map(|s| s.to_string())
    .collect::<Vec<_>>();

    assert_eq!(
        HashSet::<&String>::from_iter(&fuzz),
        HashSet::<&String>::from_iter(&expected)
    );
    assert_eq!(fuzz.len(), expected.len());
}

#[test]
fn test_hyphen_typo_fuzzer_shouldnt_repeat() {
    let domain = Domain::try_from("exampl-e.com").unwrap();

    let fuzz = HyphenTypoFuzzerStrategy::default()
        .fuzz(&domain);
    let expected = [
        "e-xampl-e.com",
        "ex-ampl-e.com",
        "exa-mpl-e.com",
        "exam-pl-e.com",
        "examp-l-e.com",
    ]
    .iter()
    .map(|s| s.to_string())
    .collect::<Vec<_>>();

    assert_eq!(
        HashSet::<&String>::from_iter(&fuzz),
        HashSet::<&String>::from_iter(&expected)
    );
    assert_eq!(fuzz.len(), expected.len());
}

#[test]
fn test_hyphen_typo_fuzzer_with_single_char() {
    let domain = Domain::try_from("x.com").unwrap();

    let fuzz = HyphenTypoFuzzerStrategy::default()
        .fuzz(&domain);
    let expected = [];

    assert_eq!(
        HashSet::<&String>::from_iter(&fuzz),
        HashSet::<&String>::from_iter(&expected)
    );
    assert_eq!(fuzz.len(), expected.len());
}

#[test]
fn test_omission_fuzzer_with_simple_domain() {
    let domain = Domain::try_from("example.com").unwrap();

    let fuzz = OmissionFuzzerStrategy::default()
        .fuzz(&domain);
    let expected = [
        "exaple.com",
        "exampe.com",
        "eample.com",
        "exampl.com",
        "exmple.com",
        "examle.com",
        "xample.com",
    ]
    .iter()
    .map(|s| s.to_string())
    .collect::<Vec<_>>();

    assert_eq!(
        HashSet::<&String>::from_iter(&fuzz),
        HashSet::<&String>::from_iter(&expected)
    );
    assert_eq!(fuzz.len(), expected.len());
}

#[test]
fn test_omission_fuzzer_with_subdomain() {
    let domain = Domain::try_from("sub.example.com").unwrap();

    let fuzz = OmissionFuzzerStrategy::default()
        .fuzz(&domain);
    let expected = [
        "sub.xample.com",
        "sub.eample.com",
        "sub.exmple.com",
        "sub.exaple.com",
        "sub.examle.com",
        "sub.exampe.com",
        "sub.exampl.com",
    ]
    .iter()
    .map(|s| s.to_string())
    .collect::<Vec<_>>();

    assert_eq!(
        HashSet::<&String>::from_iter(&fuzz),
        HashSet::<&String>::from_iter(&expected)
    );
    assert_eq!(fuzz.len(), expected.len());
}

#[test]
fn test_omission_fuzzer_shouldnt_repeat() {
    let domain = Domain::try_from("eexample.com").unwrap();

    let fuzz = OmissionFuzzerStrategy::default()
        .fuzz(&domain);
    let expected = [
        "example.com",
        "eeample.com",
        "eexmple.com",
        "eexaple.com",
        "eexamle.com",
        "eexampe.com",
        "eexampl.com",
    ]
    .iter()
    .map(|s| s.to_string())
    .collect::<Vec<_>>();

    assert_eq!(
        HashSet::<&String>::from_iter(&fuzz),
        HashSet::<&String>::from_iter(&expected)
    );
    assert_eq!(fuzz.len(), expected.len());
}

#[test]
fn test_omission_fuzzer_with_single_char() {
    let domain = Domain::try_from("x.com").unwrap();

    let fuzz = OmissionFuzzerStrategy::default()
        .fuzz(&domain);
    let expected = [".com"].iter().map(|s| s.to_string()).collect::<Vec<_>>();

    assert_eq!(
        HashSet::<&String>::from_iter(&fuzz),
        HashSet::<&String>::from_iter(&expected)
    );
    assert_eq!(fuzz.len(), expected.len());
}

#[test]
fn test_plural_fuzzer_with_simple_domain() {
    let domain = Domain::try_from("example.com").unwrap();

    let fuzz = PluralFuzzerStrategy.fuzz(&domain);
    let expected = [
        "examples.com",
        "examplex.com",
        "examplez.com",
        "examplech.com",
        "examplesh.com",
        "examplees.com",
        "exampleies.com",
    ]
    .iter()
    .map(|s| s.to_string())
    .collect::<Vec<_>>();

    assert_eq!(
        HashSet::<&String>::from_iter(&fuzz),
        HashSet::<&String>::from_iter(&expected)
    );
    assert_eq!(fuzz.len(), expected.len());
}

#[test]
fn test_plural_fuzzer_with_subdomain() {
    let domain = Domain::try_from("sub.example.com").unwrap();

    let fuzz = PluralFuzzerStrategy.fuzz(&domain);
    let expected = [
        "sub.examples.com",
        "sub.examplex.com",
        "sub.examplez.com",
        "sub.examplech.com",
        "sub.examplesh.com",
        "sub.examplees.com",
        "sub.exampleies.com",
        "subs.example.com",
        "subx.example.com",
        "subz.example.com",
        "subch.example.com",
        "subsh.example.com",
        "subes.example.com",
        "subies.example.com",
    ]
    .iter()
    .map(|s| s.to_string())
    .collect::<Vec<_>>();

    assert_eq!(
        HashSet::<&String>::from_iter(&fuzz),
        HashSet::<&String>::from_iter(&expected)
    );
    assert_eq!(fuzz.len(), expected.len());
}

#[test]
fn test_plural_fuzzer_with_single_char() {
    let domain = Domain::try_from("x.com").unwrap();

    let fuzz = PluralFuzzerStrategy.fuzz(&domain);
    let expected = [
        "xs.com", "xx.com", "xz.com", "xch.com", "xsh.com", "xes.com", "xies.com",
    ]
    .iter()
    .map(|s| s.to_string())
    .collect::<Vec<_>>();

    assert_eq!(
        HashSet::<&String>::from_iter(&fuzz),
        HashSet::<&String>::from_iter(&expected)
    );
    assert_eq!(fuzz.len(), expected.len());
}

#[test]
fn test_repetition_fuzzer_with_simple_domain() {
    let domain = Domain::try_from("example.com").unwrap();

    let fuzz = RepetitionFuzzerStrategy.fuzz(&domain);
    let expected = [
        "eexample.com",
        "exxample.com",
        "exaample.com",
        "exammple.com",
        "exampple.com",
        "examplle.com",
        "examplee.com",
    ]
    .iter()
    .map(|s| s.to_string())
    .collect::<Vec<_>>();

    assert_eq!(
        HashSet::<&String>::from_iter(&fuzz),
        HashSet::<&String>::from_iter(&expected)
    );
    assert_eq!(fuzz.len(), expected.len());
}

#[test]
fn test_repetition_fuzzer_with_subdomain() {
    let domain = Domain::try_from("sub.example.com").unwrap();

    let fuzz = RepetitionFuzzerStrategy.fuzz(&domain);
    let expected = [
        "sub.eexample.com",
        "sub.exxample.com",
        "sub.exaample.com",
        "sub.exammple.com",
        "sub.exampple.com",
        "sub.examplle.com",
        "sub.examplee.com",
    ]
    .iter()
    .map(|s| s.to_string())
    .collect::<Vec<_>>();

    assert_eq!(
        HashSet::<&String>::from_iter(&fuzz),
        HashSet::<&String>::from_iter(&expected)
    );
    assert_eq!(fuzz.len(), expected.len());
}

#[test]
fn test_repetition_fuzzer_shouldnt_repeat() {
    let domain = Domain::try_from("eexample.com").unwrap();

    let fuzz = RepetitionFuzzerStrategy.fuzz(&domain);
    let expected = [
        "eexxample.com",
        "eexaample.com",
        "eexammple.com",
        "eexampple.com",
        "eexamplle.com",
        "eexamplee.com",
    ]
    .iter()
    .map(|s| s.to_string())
    .collect::<Vec<_>>();

    assert_eq!(
        HashSet::<&String>::from_iter(&fuzz),
        HashSet::<&String>::from_iter(&expected)
    );
    assert_eq!(fuzz.len(), expected.len());
}

#[test]
fn test_repetition_fuzzer_with_single_char() {
    let domain = Domain::try_from("x.com").unwrap();

    let fuzz = RepetitionFuzzerStrategy.fuzz(&domain);
    let expected = ["xx.com"].iter().map(|s| s.to_string()).collect::<Vec<_>>();

    assert_eq!(
        HashSet::<&String>::from_iter(&fuzz),
        HashSet::<&String>::from_iter(&expected)
    );
    assert_eq!(fuzz.len(), expected.len());
}

