use cosmic::case::{CamelCase, Domain, SkewerCase};
use cosmic::kind::{
    DomainSelector, IsMatch, Kind, OptPattern, SkewerSelector, Specific, SpecificFull,
    SpecificSelector, Variant, VariantFull, VersionReq, VersionSelector,
};
use cosmic::env::Env;
use cosmic::kinds::{
    ArtifactSubKind, BaseKind, BaseSubKind, DatabaseSubKind, KindLex, KindParts, PointKind,
    PointKindVar, StarSub, Sub,
};
use cosmic::parse::consume_point_var;
use cosmic::point::Point;
use cosmic::point::Version;
use cosmic::kinds::Kind as K;
use cosmic::kindparse::{camel_case, consume_kind, domain, kind_parts, skewer_case};
use cosmic::layer::Layer;

fn create_specific() -> Specific {
    Specific::new(
        Domain::from_str("my-domain.com").unwrap(),
        Domain::from_str("my-domain.com").unwrap(),
        SkewerCase::from_str("product").unwrap(),
        SkewerCase::from_str("variant").unwrap(),
        Version::from_str("1.0.0").unwrap(),
    )
}

fn create_specific_sub_type() -> SpecificFull {
    create_specific().sub(Some(CamelCase::from_str("Blah").unwrap()))
}

fn create_variant_full() -> VariantFull {
    Variant::Artifact.with_specific(Some(create_specific_sub_type()))
}

#[test]
fn specific() {
    let specific1 = create_specific();
    let specific2 = create_specific();
    assert_eq!(specific1, specific2);

    let spec1 = create_specific_sub_type();
    let spec2 = create_specific_sub_type();
    assert_eq!(spec1, spec2);
}

#[test]
fn variant() {
    let var1 = Variant::Artifact.with_specific(Some(create_specific_sub_type()));
    let var2 = Variant::Artifact.with_specific(Some(create_specific_sub_type()));
    assert_eq!(var1, var2);
}

#[test]
fn kind() {
    let kind1 = Kind::Root.with_variant(Some(create_variant_full()));
    let kind2 = Kind::Root.with_variant(Some(create_variant_full()));
    assert_eq!(kind1, kind2);
}

#[test]
fn specific_selector() {
    let specific = create_specific();
    let selector = SpecificSelector {
        provider: DomainSelector::Any,
        vendor: DomainSelector::Matches(Domain::from_str("my-domain.com").unwrap()),
        product: SkewerSelector::Any,
        variant: SkewerSelector::Matches(SkewerCase::from_str("variant").unwrap()),
        version: VersionSelector::Matches(VersionReq::from_str("^1.0.0").unwrap()),
    };

    assert!(selector.is_match(&specific));

    let specific = specific.to_full();
    let selector = selector.to_full();

    assert!(selector.is_match(&specific));

    let specific = specific.with_sub(Some(CamelCase::from_str("Zophis").unwrap()));
    assert!(!selector.is_match(&specific));
    let selector = selector.with_sub(OptPattern::Any);
    assert!(selector.is_match(&specific));

    let selector = SpecificSelector {
        provider: DomainSelector::Nothing,
        vendor: DomainSelector::Matches(Domain::from_str("my-domain.com").unwrap()),
        product: SkewerSelector::Any,
        variant: SkewerSelector::Matches(SkewerCase::from_str("variant").unwrap()),
        version: VersionSelector::Matches(VersionReq::from_str("^1.0.0").unwrap()),
    };

    let specific = create_specific();

    assert!(!selector.is_match(&specific));
}

#[test]
fn version_req_matches() {
    let req = VersionReq::from_str("^1.0.0").unwrap();
    assert!(req.is_match(&Version::from_str("1.2.3").unwrap()));
    assert!(!req.is_match(&Version::from_str("2.0.0").unwrap()));
    assert!(VersionReq::from_str("@1.0.0").is_err());
}

#[test]
fn case_names() {
    assert!(CamelCase::from_str("Blah9").is_ok());
    assert!(CamelCase::from_str("blah").is_err());
    assert!(CamelCase::from_str("").is_err());
    assert!(SkewerCase::from_str("my-product2").is_ok());
    assert!(SkewerCase::from_str("My").is_err());
    assert!(Domain::from_str("my-domain.com").is_ok());
    assert!(Domain::from_str("My.com").is_err());
    assert_eq!("Blah9", CamelCase::from_str("Blah9").unwrap().as_str());
}

#[test]
fn kind_from_parts() {
    let k = K::try_from(KindParts::new(BaseKind::Base, Some(CamelCase::from_str("App").unwrap()), None)).unwrap();
    assert_eq!(K::Base(BaseSubKind::App), k);
    assert!(K::try_from(KindParts::new(BaseKind::Base, None, None)).is_err());
    assert!(K::try_from(KindParts::new(BaseKind::Base, Some(CamelCase::from_str("Nope").unwrap()), None)).is_err());
    let k = K::try_from(KindParts::new(BaseKind::Artifact, Some(CamelCase::from_str("Bind").unwrap()), None)).unwrap();
    assert_eq!(K::Artifact(ArtifactSubKind::Bind), k);
    let k = K::try_from(KindParts::new(BaseKind::Star, Some(CamelCase::from_str("Nexus").unwrap()), None)).unwrap();
    assert_eq!(K::Star(StarSub::Nexus), k);
    let k = K::try_from(KindParts::new(BaseKind::Database, Some(CamelCase::from_str("Relational").unwrap()), Some(create_specific()))).unwrap();
    assert_eq!(K::Database(DatabaseSubKind::Relational(create_specific())), k);
    assert!(K::try_from(KindParts::new(BaseKind::Database, Some(CamelCase::from_str("Relational").unwrap()), None)).is_err());
    assert_eq!(K::Space, K::try_from(KindParts::new(BaseKind::Space, None, None)).unwrap());
}

#[test]
fn base_kind_names() {
    assert_eq!(BaseKind::UserBase, BaseKind::from_str("UserBase").unwrap());
    assert!(BaseKind::from_str("userbase").is_err());
    assert_eq!("BundleSeries", BaseKind::BundleSeries.to_string().as_str());
    assert!(StarSub::Nexus.is_forwarder());
    assert!(!StarSub::Central.is_forwarder());
}

#[test]
fn kind_parts_print() {
    let parts = KindParts::new(
        BaseKind::Database,
        Some(CamelCase::from_str("Relational").unwrap()),
        Some(create_specific()),
    );
    assert_eq!(
        "Database<Relational<my-domain.com:my-domain.com:product:variant:1.0.0>>",
        parts.to_string().as_str()
    );
    let parts = KindParts::new(BaseKind::File, Some(CamelCase::from_str("Dir").unwrap()), None);
    assert_eq!("File<Dir>", parts.to_string().as_str());
    assert_eq!("Root", KindParts::root().to_string().as_str());
    assert_eq!(
        "my-domain.com:my-domain.com:product:variant:1.0.0",
        create_specific().to_string().as_str()
    );
}

#[test]
fn kind_lex_names_base() {
    let lex = KindLex {
        base: CamelCase::from_str("UserBase").unwrap(),
        sub: None,
        specific: None,
    };
    assert_eq!(BaseKind::UserBase, lex.try_into().unwrap().base);
    let lex = KindLex { base: CamelCase::from_str("Nope").unwrap(), sub: None, specific: None };
    assert!(lex.try_into().is_err());
}

#[test]
fn kind_point_segments() {
    assert_eq!("bundle-series", K::BundleSeries.try_point_segments().unwrap().as_str());
    assert_eq!("user-base", BaseKind::UserBase.to_skewer().to_string().as_str());
    assert_eq!(
        "file:file",
        K::File(cosmic::kinds::FileSubKind::Dir).try_point_segments().unwrap().as_str()
    );
    assert_eq!(
        "database:database:my-domain.com:my-domain.com:product:variant:1.0.0",
        K::Database(DatabaseSubKind::Relational(create_specific()))
            .try_point_segments()
            .unwrap()
            .as_str()
    );
    assert_eq!("App", K::App.to_string().as_str());
    assert_eq!("None", Sub::Nothing.to_string().as_str());
    assert_eq!("star", Sub::Star(StarSub::Central).to_skewer().to_string().as_str());
}

#[test]
fn point_kind_print_and_resolve() {
    let pk = PointKind::new(Point::from_str("localhost:app").unwrap(), K::App);
    assert_eq!("localhost:app<App>", pk.to_string().as_str());
    let env = Env::new(Point::from_str("localhost").unwrap());
    let var = PointKindVar { point: consume_point_var("localhost:app").unwrap(), kind: K::App };
    let resolved = var.to_resolved_point_kind(&env).unwrap();
    assert_eq!("localhost:app", resolved.point.to_string().as_str());
    assert_eq!(K::App, resolved.kind);
}

#[test]
fn kind_parts_read_back() {
    let text = "Database<Relational<my-domain.com:my-domain.com:product:variant:1.0.0>>";
    let parts = KindParts::from_str(text).unwrap();
    assert_eq!(BaseKind::Database, parts.base);
    assert_eq!("Relational", parts.sub.as_ref().unwrap().as_str());
    assert_eq!("product", parts.specific.as_ref().unwrap().product.as_str());
    assert_eq!(text, parts.to_string().as_str());
    let parts = KindParts::from_str("File<Dir>").unwrap();
    assert_eq!(BaseKind::File, parts.base);
    assert!(parts.specific.is_none());
    assert_eq!("File<Dir>", parts.to_string().as_str());
    assert_eq!(BaseKind::Root, KindParts::from_str("Root").unwrap().base);
    assert!(KindParts::from_str("root").is_err());
    assert!(KindParts::from_str("Nope").is_err());
    assert!(KindParts::from_str("File<dir>").is_err());
    assert!(KindParts::from_str("Database<Relational<bad>>").is_err());
    assert!(KindParts::from_str("File<Dir>x").is_err());
}

#[test]
fn kind_text_prefixes() {
    let (rest, c) = camel_case("FileSystem<x>").unwrap();
    assert_eq!("FileSystem", c.as_str());
    assert_eq!("<x>", rest.as_str());
    assert!(camel_case("fileSystem").is_err());
    let (rest, s) = skewer_case("my-app:x").unwrap();
    assert_eq!("my-app", s.as_str());
    assert_eq!(":x", rest.as_str());
    let (rest, d) = domain("my-domain.com:1").unwrap();
    assert_eq!("my-domain.com", d.as_str());
    assert_eq!(":1", rest.as_str());
    let (rest, sp) = cosmic::kindparse::specific("a.com:b.com:c:d:1.2.3>").unwrap();
    assert_eq!(">", rest.as_str());
    assert_eq!("1.2.3", sp.version.to_string().as_str());
    let (rest, parts) = kind_parts("File<Dir> tail").unwrap();
    assert_eq!(" tail", rest.as_str());
    assert_eq!(BaseKind::File, parts.base);
    assert_eq!(BaseKind::App, consume_kind("App").unwrap().base);
    assert!(consume_kind("App ").is_err());
}

#[test]
fn layer_names_read_back() {
    for l in [Layer::Gravity, Layer::Field, Layer::Shell, Layer::Portal, Layer::Host, Layer::Guest, Layer::Core] {
        assert_eq!(l, Layer::from_str(l.to_string().as_str()).unwrap());
    }
    assert!(Layer::from_str("core").is_err());
}
