use lnpbp_invoice::{Quantity, Recurrent};

#[test]
fn quantities_are_written() {
    let quantity = |min: u32, max: Option<u32>| Quantity { min, max, default: 12 };
    assert_eq!(quantity(0, None).to_string(), "12 items");
    assert_eq!(quantity(0, Some(20)).to_string(), "12 items (or any amount up to 20)");
    assert_eq!(quantity(0, Some(0)).to_string(), "12 items (or any amount up to 0)");
    assert_eq!(quantity(5, None).to_string(), "12 items (or any amount above 5)");
    assert_eq!(quantity(5, Some(20)).to_string(), "12 items (or from 5 to 20)");
    assert_eq!(
        Quantity { min: u32::MAX, max: Some(1), default: u32::MAX }.to_string(),
        "4294967295 items (or from 4294967295 to 1)"
    );
}

#[test]
fn different_quantities_are_written_differently() {
    let mut all = vec![];
    for min in [0u32, 1, 11] {
        for max in [None, Some(0u32), Some(1), Some(11)] {
            for default in [0u32, 1, 11] {
                all.push(Quantity { min, max, default });
            }
        }
    }
    for a in &all {
        for b in &all {
            assert_eq!(a.to_string() == b.to_string(), a == b);
        }
    }
}

#[test]
fn quantities_are_made() {
    assert_eq!(Quantity::default(), Quantity { min: 0, max: None, default: 1 });
    assert_eq!(Quantity::from(8u32), Quantity { min: 0, max: None, default: 8 });
}

#[test]
fn intervals_are_written() {
    assert_eq!(Recurrent::NonRecurrent.to_string(), "non-recurrent");
    assert_eq!(Recurrent::Seconds(86400).to_string(), "each 86400 seconds");
    assert_eq!(Recurrent::Months(1).to_string(), "each 1 months");
    assert_eq!(Recurrent::Years(255).to_string(), "each 255 years");
    assert_eq!(Recurrent::default(), Recurrent::NonRecurrent);
}
