use mae::repo::prelude::DomainStatus;
use mae::test_domain::Domain;

#[test]
fn domain_holds_its_value() {
    let d = Domain { value: 1 };
    assert_eq!(d.value, 1);
    assert_ne!(DomainStatus::Active, DomainStatus::Archived);
}
