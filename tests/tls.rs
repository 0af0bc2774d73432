use miss_demeanor::tls::{resolve_tls, Args, TlsIdentity, UseTls, DEFAULT_CONFIG_PATH};

fn identity() -> UseTls {
    UseTls::Yes(TlsIdentity::new(vec![1, 2, 3], "pw".to_string()))
}

#[test]
fn tls_required_but_missing_is_refused() {
    let e = resolve_tls(true, UseTls::No).err().unwrap();
    assert_eq!(e.message(), "Missing required options for TLS");
}

#[test]
fn tls_identity_kept_when_required() {
    match resolve_tls(true, identity()).ok().unwrap() {
        UseTls::Yes(id) => {
            assert_eq!(id.identity(), &vec![1u8, 2, 3]);
            assert_eq!(id.password(), "pw");
        }
        UseTls::No => panic!("identity dropped"),
    }
}

#[test]
fn tls_identity_dropped_when_unused() {
    assert!(!resolve_tls(false, identity()).ok().unwrap().use_tls());
    assert!(!resolve_tls(false, UseTls::No).ok().unwrap().use_tls());
}

#[test]
fn args_default_path() {
    let a = Args::new(UseTls::No, None);
    assert_eq!(a.config_path, DEFAULT_CONFIG_PATH);
    assert_eq!(a.config_path, "/etc/miss-demeanor/config.toml");
    let b = Args::new(identity(), Some("/tmp/c.toml".to_string()));
    assert_eq!(b.config_path, "/tmp/c.toml");
    assert!(b.use_tls.use_tls());
}
