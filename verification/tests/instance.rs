use marketplace_builder::{build_instance_state, L1Params, Version};
use surf::Url;

fn url(s: &str) -> Url {
    Url::parse(s).unwrap()
}

#[test]
fn the_instance_state_is_that_of_the_parameters() {
    let params = L1Params {
        url: url("http://localhost:8545"),
        events_max_block_range: 10000,
    };
    let peers = vec![url("http://peer-1:24000"), url("http://peer-0:24000")];
    let state = build_instance_state::<0, 1, &str>("chain", params, peers).unwrap();
    assert_eq!(state.node_id, u64::MAX);
    assert_eq!(state.chain_config, "chain");
    assert_eq!(state.l1_client.url, url("http://localhost:8545"));
    assert_eq!(state.l1_client.events_max_block_range, 10000);
    assert_eq!(
        state.peers.urls,
        vec![url("http://peer-1:24000"), url("http://peer-0:24000")]
    );
    assert_eq!(state.current_version, Version { major: 0, minor: 1 });
}

#[test]
fn the_version_is_that_of_the_type() {
    let params = || L1Params {
        url: url("http://localhost"),
        events_max_block_range: 1,
    };
    let state = build_instance_state::<0, 3, ()>((), params(), vec![]).unwrap();
    assert_eq!(state.current_version, Version { major: 0, minor: 3 });
    assert!(state.peers.urls.is_empty());
    let state = build_instance_state::<65535, 2, ()>((), params(), vec![]).unwrap();
    assert_eq!(state.current_version, Version { major: 65535, minor: 2 });
}
