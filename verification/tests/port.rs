use plugin_bootstrap::port::{PortAllocator, PortRange};

#[test]
fn allocator_walks_range_ascending_then_exhausts() {
    let mut a = PortAllocator::new(Some(PortRange { min: 40000, max: 40002 }));
    let mut handed = Vec::new();
    let mut calls = 0usize;
    loop {
        match a.next_candidate() {
            Some(p) => {
                handed.push(p);
                calls += 1;
            },
            None => break,
        }
    }
    // a range of width 3, fully occupied, is tried exactly 3 times
    assert_eq!(calls, 3);
    assert_eq!(handed, vec![40000, 40001, 40002]);
    // exhaustion is stable
    assert!(a.next_candidate().is_none());
}

#[test]
fn allocator_single_port_range() {
    let mut a = PortAllocator::new(Some(PortRange { min: 50505, max: 50505 }));
    assert_eq!(a.next_candidate(), Some(50505));
    assert_eq!(a.next_candidate(), None);
}

#[test]
fn allocator_without_range_asks_os_once() {
    let mut a = PortAllocator::new(None);
    assert_eq!(a.next_candidate(), Some(0));
    assert_eq!(a.next_candidate(), None);
}

#[test]
fn allocation_returns_lowest_free_port() {
    // ports 40000 and 40001 are taken; the bind loop must settle on 40002
    let occupied = vec![40000u16, 40001];
    let mut a = PortAllocator::new(Some(PortRange { min: 40000, max: 40005 }));
    let mut bound = None;
    while let Some(p) = a.next_candidate() {
        if !occupied.contains(&p) {
            bound = Some(p);
            break;
        }
    }
    assert_eq!(bound, Some(40002));
}
