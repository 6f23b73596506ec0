use cosmic::env::Env;
use cosmic::parse::{lowercase1, rec_version, skewer_dot, variable_name, version};
use cosmic::point::Point;
use cosmic::subst::{subst, Chunk, Subst};
use cosmic::text::CharClass;

#[test]
fn test_subst() {
    let chunks = subst("123[]:${var}:abc", CharClass::SysRoute).unwrap();
    assert_eq!(chunks.chunks.len(), 3);
    let mut env = Env::new(Point::root());
    env.set_var_str("var", "hello");
    let resolved = chunks.to_resolved(&env).unwrap();
    assert_eq!("123[]:hello:abc", resolved.as_str());
    assert_eq!("123[]:${var}:abc", chunks.to_string().as_str());
}

#[test]
fn subst_missing_variable() {
    let chunks = subst("a${missing}b", CharClass::Alnum).unwrap();
    let env = Env::new(Point::root());
    assert!(chunks.to_resolved(&env).is_err());
    assert!(subst("${vAr}", CharClass::Alnum).is_err());
    assert!(subst("${var", CharClass::Alnum).is_err());
}

#[test]
fn subst_path_reads_chunks() {
    let s = Subst::new("/users/${user}/home").unwrap();
    assert_eq!(3, s.chunks.len());
    assert_eq!(Chunk::Var("user".to_string()), s.chunks[1]);
    assert!(Subst::new("users").is_err());
    assert_eq!(5, s.chunks[1].len() - 2);
}

#[test]
fn test_version() {
    assert_eq!("1.0.0", rec_version("1.0.0").unwrap().as_str());
    assert_eq!("1.0.0-alpha", rec_version("1.0.0-alpha").unwrap().as_str());
    let v = version("1.0.0-alpha").unwrap();
    assert_eq!(1, v.major);
    assert_eq!("alpha", v.pre.as_str());
    assert!(rec_version("1.0").is_err());
}

#[test]
fn test_variable_name() {
    assert_eq!("v".to_string(), lowercase1("v").unwrap());
    assert_eq!("var".to_string(), skewer_dot("var").unwrap());
    assert!(variable_name("var").is_ok());
    assert_eq!("my-var.x", variable_name("my-var.x}").unwrap().as_str());
    assert!(variable_name("Var").is_err());
}

#[test]
fn subst_prints_back_what_it_read() {
    let chunks = subst("a-${x}-b ${y} rest", CharClass::Alnum).unwrap();
    assert_eq!("a", chunks.to_string().as_str());
    let chunks = subst("${x}abc${y.z}", CharClass::Alnum).unwrap();
    assert_eq!("${x}abc${y.z}", chunks.to_string().as_str());
}
