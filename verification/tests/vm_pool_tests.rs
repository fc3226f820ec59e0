use alloy_control::vm_pool::{reset_command, ssh_target, vm_name, VmPool, VmState};

fn pool_of(n: usize) -> VmPool {
    let mut pool = VmPool::new("base-image");
    for i in 0..n {
        assert_eq!(pool.add_slot(format!("10.0.0.{}", i + 1)), Some(i));
    }
    pool
}

fn states(pool: &VmPool) -> Vec<VmState> {
    (0..pool.len()).map(|i| pool.get(i).unwrap().state).collect()
}

#[test]
fn slots_are_named_after_their_index() {
    let pool = pool_of(3);
    assert_eq!(pool.vm_names(), vec!["pool-vm-0", "pool-vm-1", "pool-vm-2"]);
    assert_eq!(pool.get(1).unwrap().name, "pool-vm-1");
    assert_eq!(pool.get(1).unwrap().ip, "10.0.0.2");
    assert_eq!(pool.base_image(), "base-image");
    assert!(pool.get(3).is_none());
    assert_eq!(vm_name(0), "pool-vm-0");
    assert_eq!(vm_name(12), "pool-vm-12");
    assert_eq!(vm_name(u32::MAX), format!("pool-vm-{}", u32::MAX));
}

#[test]
fn acquire_takes_the_first_ready_slot() {
    let mut pool = pool_of(3);
    assert_eq!(pool.acquire(), Some(0));
    assert_eq!(pool.acquire(), Some(1));
    assert_eq!(states(&pool), vec![VmState::InUse, VmState::InUse, VmState::Ready]);
    assert_eq!(pool.acquire(), Some(2));
    assert_eq!(pool.acquire(), None);
    assert_eq!(states(&pool), vec![VmState::InUse, VmState::InUse, VmState::InUse]);
}

#[test]
fn release_goes_through_resetting() {
    let mut pool = pool_of(2);
    assert_eq!(pool.acquire(), Some(0));
    assert!(pool.begin_release(0));
    assert_eq!(states(&pool), vec![VmState::Resetting, VmState::Ready]);
    // a resetting slot is not handed out
    assert_eq!(pool.acquire(), Some(1));
    assert_eq!(pool.acquire(), None);
    assert!(pool.finish_release(0));
    assert_eq!(states(&pool), vec![VmState::Ready, VmState::InUse]);
    assert_eq!(pool.acquire(), Some(0));
}

#[test]
fn transitions_out_of_order_are_refused() {
    let mut pool = pool_of(1);
    assert!(!pool.begin_release(0));
    assert!(!pool.finish_release(0));
    assert!(!pool.begin_release(5));
    assert!(!pool.finish_release(5));
    assert_eq!(states(&pool), vec![VmState::Ready]);
    pool.acquire();
    assert!(!pool.finish_release(0));
    assert!(pool.begin_release(0));
    assert!(!pool.begin_release(0));
    assert_eq!(states(&pool), vec![VmState::Resetting]);
}

#[test]
fn in_use_count_follows_acquires_and_releases() {
    let mut pool = pool_of(4);
    let mut active = 0usize;
    let plan = [1, 1, 0, 1, 1, 1, 0, 0, 1, 0, 0, 0, 1];
    let mut held = Vec::new();
    for step in plan {
        if step == 1 {
            if let Some(slot) = pool.acquire() {
                assert!(!held.contains(&slot));
                held.push(slot);
                active += 1;
            }
        } else if let Some(slot) = held.pop() {
            assert!(pool.begin_release(slot));
            active -= 1;
            assert!(pool.finish_release(slot));
        }
        let in_use = states(&pool).iter().filter(|s| **s == VmState::InUse).count();
        assert_eq!(in_use, active);
    }
}

#[test]
fn unknown_addresses_can_be_filled_in() {
    let mut pool = VmPool::new("img");
    pool.add_slot(String::new());
    pool.add_slot("10.1.1.1".to_string());
    assert!(pool.needs_ip(0));
    assert!(!pool.needs_ip(1));
    assert!(!pool.needs_ip(2));
    pool.set_ip(0, "10.1.1.9".to_string());
    pool.set_ip(7, "ignored".to_string());
    assert!(!pool.needs_ip(0));
    assert_eq!(pool.get(0).unwrap().ip, "10.1.1.9");
    assert_eq!(pool.get(0).unwrap().state, VmState::Ready);
    assert_eq!(pool.len(), 2);
}

#[test]
fn shutdown_names_every_vm() {
    let mut pool = pool_of(3);
    pool.acquire();
    assert_eq!(pool.shutdown(), vec!["pool-vm-0", "pool-vm-1", "pool-vm-2"]);
    assert!(VmPool::new("img").shutdown().is_empty());
}

#[test]
fn cleanup_runs_over_ssh() {
    assert_eq!(reset_command(), "rm -rf ~/workspace ~/source.zip");
    assert_eq!(ssh_target("192.168.64.5"), "admin@192.168.64.5");
}
