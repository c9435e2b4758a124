use motsu_router::{Handler, Registry, Router, RouterError, RouterFactory, VMRouter, VMRouterStorage};

/// A handler that answers every call with one fixed byte in front of the calldata.
struct Tagged(u8);

impl Router for Tagged {
    fn route(&mut self, calldata: Vec<u8>) -> Result<Vec<u8>, Vec<u8>> {
        let mut answer = vec![self.0];
        answer.extend(calldata);
        Ok(answer)
    }
}

fn tagged(tag: u8) -> VMRouterStorage {
    VMRouterStorage {
        router_factory: Box::new(RouterFactory::new(move || Handler { router: Box::new(Tagged(tag)) })),
    }
}

fn address(last: u8) -> [u8; 20] {
    let mut bytes = [0u8; 20];
    bytes[19] = last;
    bytes
}

#[test]
fn new_registry_holds_nothing() {
    let routers = Registry::new();
    assert!(!VMRouter::new(0, [0; 20]).exists_in(&routers));
    assert!(!VMRouter::new(1, address(1)).exists_in(&routers));
    assert!(!VMRouter::new(u64::MAX, [0xff; 20]).exists_in(&routers));
}

#[test]
fn never_initialised_key_does_not_exist_and_is_not_routed() {
    let mut routers = Registry::new();
    let other = VMRouter::new(1, address(1));
    assert_eq!(other.init_storage(&mut routers, tagged(1)), Ok(()));
    other.reset_storage(&mut routers);
    assert_eq!(other.init_storage(&mut routers, tagged(2)), Ok(()));

    let key = VMRouter::new(1, address(2));
    assert!(!key.exists_in(&routers));
    assert_eq!(
        key.route(&routers, vec![9]),
        Err(RouterError::NotInitialized { contract_address: address(2) })
    );
}

#[test]
fn init_makes_the_key_exist() {
    let mut routers = Registry::new();
    let key = VMRouter::new(1, address(1));
    assert!(!key.exists_in(&routers));
    assert_eq!(key.init_storage(&mut routers, tagged(1)), Ok(()));
    assert!(key.exists_in(&routers));
}

#[test]
fn second_init_is_refused_and_does_not_overwrite() {
    let mut routers = Registry::new();
    let key = VMRouter::new(1, address(1));
    assert_eq!(key.init_storage(&mut routers, tagged(1)), Ok(()));
    assert_eq!(
        key.init_storage(&mut routers, tagged(2)),
        Err(RouterError::AlreadyInitialized { contract_address: address(1) })
    );
    assert!(key.exists_in(&routers));
    assert_eq!(key.route(&routers, vec![5]), Ok(Ok(vec![1, 5])));
}

#[test]
fn reset_frees_the_key_for_a_new_router() {
    let mut routers = Registry::new();
    let key = VMRouter::new(1, address(1));
    assert_eq!(key.init_storage(&mut routers, tagged(1)), Ok(()));
    key.reset_storage(&mut routers);
    assert!(!key.exists_in(&routers));
    assert_eq!(
        key.route(&routers, vec![5]),
        Err(RouterError::NotInitialized { contract_address: address(1) })
    );
    assert_eq!(key.init_storage(&mut routers, tagged(2)), Ok(()));
    assert!(key.exists_in(&routers));
    assert_eq!(key.route(&routers, vec![5]), Ok(Ok(vec![2, 5])));
}

#[test]
fn reset_of_an_absent_key_changes_nothing() {
    let mut routers = Registry::new();
    let kept = VMRouter::new(1, address(1));
    let absent = VMRouter::new(1, address(2));
    assert_eq!(kept.init_storage(&mut routers, tagged(1)), Ok(()));
    absent.reset_storage(&mut routers);
    absent.reset_storage(&mut routers);
    assert!(kept.exists_in(&routers));
    assert!(!absent.exists_in(&routers));
    assert_eq!(kept.route(&routers, vec![]), Ok(Ok(vec![1])));
}

#[test]
fn reset_leaves_the_other_keys() {
    let mut routers = Registry::new();
    let first = VMRouter::new(1, address(1));
    let second = VMRouter::new(1, address(2));
    assert_eq!(first.init_storage(&mut routers, tagged(1)), Ok(()));
    assert_eq!(second.init_storage(&mut routers, tagged(2)), Ok(()));
    first.reset_storage(&mut routers);
    assert!(!first.exists_in(&routers));
    assert!(second.exists_in(&routers));
    assert_eq!(second.route(&routers, vec![7]), Ok(Ok(vec![2, 7])));
}

#[test]
fn same_address_in_two_contexts_is_two_keys() {
    let mut routers = Registry::new();
    let first = VMRouter::new(1, address(1));
    let second = VMRouter::new(2, address(1));
    assert_eq!(first.init_storage(&mut routers, tagged(1)), Ok(()));
    assert!(!second.exists_in(&routers));
    assert_eq!(second.init_storage(&mut routers, tagged(2)), Ok(()));
    assert_eq!(first.route(&routers, vec![0]), Ok(Ok(vec![1, 0])));
    assert_eq!(second.route(&routers, vec![0]), Ok(Ok(vec![2, 0])));
}

#[test]
fn two_addresses_in_one_context_are_two_keys() {
    let mut routers = Registry::new();
    let first = VMRouter::new(1, address(1));
    let second = VMRouter::new(1, address(2));
    assert_eq!(first.init_storage(&mut routers, tagged(1)), Ok(()));
    assert!(!second.exists_in(&routers));
    assert_eq!(second.init_storage(&mut routers, tagged(2)), Ok(()));
    assert_eq!(first.route(&routers, vec![0]), Ok(Ok(vec![1, 0])));
    assert_eq!(second.route(&routers, vec![0]), Ok(Ok(vec![2, 0])));
}

#[test]
fn distinct_keys_register_in_either_order() {
    let first = VMRouter::new(1, address(1));
    let second = VMRouter::new(2, address(2));

    let mut forward = Registry::new();
    assert_eq!(first.init_storage(&mut forward, tagged(1)), Ok(()));
    assert_eq!(second.init_storage(&mut forward, tagged(2)), Ok(()));

    let mut backward = Registry::new();
    assert_eq!(second.init_storage(&mut backward, tagged(2)), Ok(()));
    assert_eq!(first.init_storage(&mut backward, tagged(1)), Ok(()));

    for routers in [&forward, &backward] {
        assert!(first.exists_in(routers));
        assert!(second.exists_in(routers));
        assert_eq!(first.route(routers, vec![3]), Ok(Ok(vec![1, 3])));
        assert_eq!(second.route(routers, vec![3]), Ok(Ok(vec![2, 3])));
    }
}

#[test]
fn many_keys_are_kept_apart() {
    let mut routers = Registry::new();
    for context in 0..8u64 {
        for last in 0..32u8 {
            let key = VMRouter::new(context, address(last));
            assert_eq!(key.init_storage(&mut routers, tagged(last)), Ok(()));
        }
    }
    for context in 0..8u64 {
        for last in 0..32u8 {
            let key = VMRouter::new(context, address(last));
            assert!(key.exists_in(&routers));
            assert_eq!(key.route(&routers, vec![]), Ok(Ok(vec![last])));
        }
    }
    assert!(!VMRouter::new(8, address(0)).exists_in(&routers));
    assert!(!VMRouter::new(0, address(32)).exists_in(&routers));
}

#[test]
fn registries_are_independent() {
    let mut first = Registry::new();
    let second = Registry::new();
    let key = VMRouter::new(1, address(1));
    assert_eq!(key.init_storage(&mut first, tagged(1)), Ok(()));
    assert!(key.exists_in(&first));
    assert!(!key.exists_in(&second));
}
