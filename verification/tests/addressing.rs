use mma8x5x::{SlaveAddr, MMA845X_BASE_ADDR};

#[test]
fn can_get_default_address() {
    let addr = SlaveAddr::default();
    assert_eq!(MMA845X_BASE_ADDR, addr.addr(MMA845X_BASE_ADDR));
}

#[test]
fn can_generate_alternative_addresses() {
    assert_eq!(
        MMA845X_BASE_ADDR,
        SlaveAddr::Alternative(false).addr(MMA845X_BASE_ADDR)
    );
    assert_eq!(
        MMA845X_BASE_ADDR | 1,
        SlaveAddr::Alternative(true).addr(MMA845X_BASE_ADDR)
    );
}
