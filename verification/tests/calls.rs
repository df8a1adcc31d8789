use uapki::calls::{
    add_trusted_outcome, has_nul, init_step, is_c_string, next_stage, verify_file_request, verify_request,
    InitAction, InitConfig, InitStage,
};
use uapki::der_list::DerList;
use uapki::{Error, Network, Validation};

#[test]
fn default_network_is_offline() {
    let n = Network::default();
    assert!(n.offline);
    assert_eq!(n.proxy, None);
    assert_eq!(n.connect_timeout_ms, 0);
    assert_eq!(n.total_timeout_ms, 0);
    assert!(!n.only_crl);
}

#[test]
fn nul_bytes_are_found() {
    assert!(has_nul(&[1, 0, 2]));
    assert!(has_nul(&[0]));
    assert!(!has_nul(&[]));
    assert!(!has_nul(b"abc"));
    assert!(is_c_string("http://proxy:3128"));
    assert!(!is_c_string("a\0b"));
}

#[test]
fn init_run_clears_then_configures() {
    let root = [0x30u8, 0x03, 1, 2, 3];
    let items: Vec<&[u8]> = vec![&root];
    let certs = DerList::new(&items);
    let network = Network {
        offline: false,
        proxy: Some(("http://proxy:3128", "user:pass")),
        connect_timeout_ms: 1500,
        total_timeout_ms: 9000,
        only_crl: true,
    };
    assert_eq!(init_step(&network, &certs, InitStage::Start, 0), InitAction::ClearTrusted);
    assert_eq!(
        init_step(&network, &certs, InitStage::Cleared, 0),
        InitAction::Configure(InitConfig {
            offline: 0,
            proxy: Some(("http://proxy:3128", "user:pass")),
            connect_timeout_ms: 1500,
            total_timeout_ms: 9000,
            only_crl: 1,
        }, &certs)
    );
    match init_step(&network, &certs, InitStage::Cleared, 0) {
        InitAction::Configure(_, list) => {
            let (blobs, lens, count) = list.as_parts();
            assert_eq!(count, 1);
            assert_eq!(blobs, &items[..]);
            assert_eq!(lens, &[5usize][..]);
        }
        other => panic!("expected a configuration, got {:?}", other),
    }
    assert_eq!(init_step(&network, &certs, InitStage::Configured, 0), InitAction::Finish(Ok(())));
}

#[test]
fn init_default_network_flags() {
    let root = [0x30u8, 0x03, 1, 2, 3];
    let items: Vec<&[u8]> = vec![&root];
    let certs = DerList::new(&items);
    let network = Network::default();
    assert_eq!(
        init_step(&network, &certs, InitStage::Cleared, 0),
        InitAction::Configure(InitConfig {
            offline: 1,
            proxy: None,
            connect_timeout_ms: 0,
            total_timeout_ms: 0,
            only_crl: 0,
        }, &certs)
    );
}

#[test]
fn init_refuses_proxy_with_nul() {
    let root = [0x30u8, 0x03, 1, 2, 3];
    let items: Vec<&[u8]> = vec![&root];
    let certs = DerList::new(&items);
    let url = Network { proxy: Some(("http://pro\0xy", "c")), ..Network::default() };
    assert_eq!(init_step(&url, &certs, InitStage::Start, 0), InitAction::Finish(Err(Error::BadPath)));
    let cred = Network { proxy: Some(("http://proxy", "us\0er")), ..Network::default() };
    assert_eq!(init_step(&cred, &certs, InitStage::Start, 0), InitAction::Finish(Err(Error::BadPath)));
}

#[test]
fn init_failed_clear_stops_before_configuring() {
    let root = [0x30u8, 0x03, 1, 2, 3];
    let items: Vec<&[u8]> = vec![&root];
    let certs = DerList::new(&items);
    let network = Network::default();
    assert_eq!(
        init_step(&network, &certs, InitStage::Cleared, 17),
        InitAction::Finish(Err(Error::Configure(17)))
    );
}

#[test]
fn init_failed_configuration() {
    let root = [0x30u8, 0x03, 1, 2, 3];
    let items: Vec<&[u8]> = vec![&root];
    let certs = DerList::new(&items);
    let network = Network::default();
    assert_eq!(
        init_step(&network, &certs, InitStage::Configured, -4),
        InitAction::Finish(Err(Error::Configure(-4)))
    );
}

#[test]
fn add_trusted_status() {
    assert_eq!(add_trusted_outcome(0), Ok(()));
    assert_eq!(add_trusted_outcome(9), Err(Error::AddTrusted(9)));
}

#[test]
fn attached_and_detached_requests() {
    let sign = [1u8, 2, 3];
    let data = [9u8; 5];
    let attached = verify_request(&sign, None, Validation::Chain);
    assert_eq!(attached.sign, &sign[..]);
    assert_eq!(attached.data, None);
    assert_eq!(attached.data_len, 0);
    assert_eq!(attached.validation_code, 2);

    let detached = verify_request(&sign, Some(&data), Validation::Full);
    assert_eq!(detached.data, Some(&data[..]));
    assert_eq!(detached.data_len, 5);
    assert_eq!(detached.validation_code, 3);
}

#[test]
fn file_request_refuses_nul_path() {
    let sign = [7u8; 4];
    assert!(matches!(
        verify_file_request(&sign, "/tmp/doc\0.pdf", Validation::Chain),
        Err(Error::BadPath)
    ));
    let ok = verify_file_request(&sign, "/tmp/doc.pdf", Validation::Envelope).unwrap();
    assert_eq!(ok.data_path, "/tmp/doc.pdf");
    assert_eq!(ok.sign, &sign[..]);
    assert_eq!(ok.validation_code, 1);
}

#[test]
fn der_list_pairs_blobs_with_lengths() {
    let a = [0x30u8, 0x82, 0x01];
    let b: [u8; 0] = [];
    let c = [5u8; 10];
    let items: Vec<&[u8]> = vec![&a, &b, &c];
    let list = DerList::new(&items);
    let (blobs, lens, count) = list.as_parts();
    assert_eq!(count, 3);
    assert_eq!(lens, &[3usize, 0, 10][..]);
    assert_eq!(blobs, &items[..]);
}

#[test]
fn der_list_empty() {
    let items: Vec<&[u8]> = Vec::new();
    let list = DerList::new(&items);
    let (blobs, lens, count) = list.as_parts();
    assert_eq!(count, 0);
    assert!(blobs.is_empty());
    assert!(lens.is_empty());
}

#[test]
fn stages_follow_the_actions() {
    let root = [0x30u8, 0x00];
    let items: Vec<&[u8]> = vec![&root];
    let certs = DerList::new(&items);
    let network = Network::default();
    let start = init_step(&network, &certs, InitStage::Start, 0);
    assert_eq!(next_stage(&start), Some(InitStage::Cleared));
    let cleared = init_step(&network, &certs, InitStage::Cleared, 0);
    assert_eq!(next_stage(&cleared), Some(InitStage::Configured));
    let configured = init_step(&network, &certs, InitStage::Configured, 0);
    assert_eq!(next_stage(&configured), None);
    let failed = init_step(&network, &certs, InitStage::Cleared, 3);
    assert_eq!(next_stage(&failed), None);
}
