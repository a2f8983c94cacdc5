use mistctr::quantity::{DataUnit, QuantityParseError, ResourceQuantity};

fn bytes_of(text: &str) -> u64 {
    match ResourceQuantity::try_from(text) {
        Ok(ResourceQuantity::Memory { bytes }) => bytes,
        other => panic!("{text:?} gave {other:?}"),
    }
}

#[test]
fn parses_binary_megabytes() {
    assert_eq!(bytes_of("128Mi"), 128 * 1024 * 1024);
    assert_eq!(bytes_of("512Mi"), 536870912);
}

#[test]
fn parses_decimal_gigabyte() {
    assert_eq!(bytes_of("1G"), 1_000_000_000);
}

#[test]
fn empty_text_has_no_format() {
    assert_eq!(ResourceQuantity::try_from(""), Err(QuantityParseError::InvalidFormat));
}

#[test]
fn unknown_suffix_is_no_unit() {
    assert_eq!(ResourceQuantity::try_from("10Xy"), Err(QuantityParseError::InvalidUnit));
}

#[test]
fn text_without_number_has_no_format() {
    assert_eq!(ResourceQuantity::try_from("Mi"), Err(QuantityParseError::InvalidFormat));
    assert_eq!(ResourceQuantity::try_from("."), Err(QuantityParseError::InvalidFormat));
    assert_eq!(ResourceQuantity::try_from(".Mi"), Err(QuantityParseError::InvalidFormat));
    assert_eq!(ResourceQuantity::try_from("-1k"), Err(QuantityParseError::InvalidFormat));
    assert_eq!(ResourceQuantity::try_from("é1k"), Err(QuantityParseError::InvalidFormat));
}

#[test]
fn number_without_unit_is_no_unit() {
    assert_eq!(ResourceQuantity::try_from("128"), Err(QuantityParseError::InvalidUnit));
    assert_eq!(ResourceQuantity::try_from("2"), Err(QuantityParseError::InvalidUnit));
    assert_eq!(ResourceQuantity::try_from("1.5"), Err(QuantityParseError::InvalidUnit));
}

#[test]
fn second_point_belongs_to_the_suffix() {
    assert_eq!(ResourceQuantity::try_from("1.5.Mi"), Err(QuantityParseError::InvalidUnit));
    assert_eq!(ResourceQuantity::try_from("1..k"), Err(QuantityParseError::InvalidUnit));
}

#[test]
fn suffix_is_case_sensitive_and_exact() {
    assert_eq!(ResourceQuantity::try_from("10mi"), Err(QuantityParseError::InvalidUnit));
    assert_eq!(ResourceQuantity::try_from("10K"), Err(QuantityParseError::InvalidUnit));
    assert_eq!(ResourceQuantity::try_from("10ki"), Err(QuantityParseError::InvalidUnit));
    assert_eq!(ResourceQuantity::try_from("10Mib"), Err(QuantityParseError::InvalidUnit));
    assert_eq!(ResourceQuantity::try_from("10 M"), Err(QuantityParseError::InvalidUnit));
    assert_eq!(ResourceQuantity::try_from("10Mé"), Err(QuantityParseError::InvalidUnit));
}

#[test]
fn every_unit_of_the_table_parses() {
    assert_eq!(bytes_of("1k"), 1_000);
    assert_eq!(bytes_of("1M"), 1_000_000);
    assert_eq!(bytes_of("1T"), 1_000_000_000_000);
    assert_eq!(bytes_of("1P"), 1_000_000_000_000_000);
    assert_eq!(bytes_of("1E"), 1_000_000_000_000_000_000);
    assert_eq!(bytes_of("1Ki"), 1 << 10);
    assert_eq!(bytes_of("1Gi"), 1 << 30);
    assert_eq!(bytes_of("1Ti"), 1 << 40);
    assert_eq!(bytes_of("1Pi"), 1 << 50);
    assert_eq!(bytes_of("1Ei"), 1 << 60);
}

#[test]
fn fractions_are_scaled_exactly() {
    assert_eq!(bytes_of("1.5Ki"), 1536);
    assert_eq!(bytes_of(".5k"), 500);
    assert_eq!(bytes_of("5.k"), 5000);
    assert_eq!(bytes_of("0.25Mi"), 262144);
    assert_eq!(bytes_of("0.1k"), 100);
    assert_eq!(bytes_of("007k"), 7000);
    assert_eq!(bytes_of("0k"), 0);
}

#[test]
fn products_are_rounded_to_nearest_half_up() {
    assert_eq!(bytes_of("1.2345k"), 1235);
    assert_eq!(bytes_of("1.2344k"), 1234);
    assert_eq!(bytes_of("0.0005k"), 1);
    assert_eq!(bytes_of("0.0004999999999999999999999999k"), 0);
    assert_eq!(bytes_of("0.0001Ki"), 0);
    assert_eq!(bytes_of("0.0005Ki"), 1);
    assert_eq!(bytes_of("0.00048828125Ki"), 1);
    assert_eq!(bytes_of("0.000488281249Ki"), 0);
}

#[test]
fn large_units_with_small_numbers_fit() {
    assert_eq!(bytes_of("0.001Z"), 1_000_000_000_000_000_000);
    assert_eq!(bytes_of("0.000000000001Q"), 1_000_000_000_000_000_000);
    assert_eq!(bytes_of("0.0000000000000000000000000001Q"), 100);
    assert_eq!(bytes_of("0.000000000000000000000000000001Qi"), 1);
}

#[test]
fn products_beyond_u64_are_held_at_the_maximum() {
    assert_eq!(bytes_of("20E"), u64::MAX);
    assert_eq!(bytes_of("16Ei"), u64::MAX);
    assert_eq!(bytes_of("1Z"), u64::MAX);
    assert_eq!(bytes_of("1Qi"), u64::MAX);
    assert_eq!(bytes_of("99999999999999999999999999999999999999999999k"), u64::MAX);
    assert_eq!(bytes_of("18446744073709551615k"), u64::MAX);
    assert_eq!(bytes_of("18.446744073709551615E"), u64::MAX);
    assert_eq!(bytes_of("18.446744073709551614E"), u64::MAX - 1);
}

#[test]
fn parsing_is_a_pure_function() {
    assert_eq!(ResourceQuantity::try_from("3.75Gi"), ResourceQuantity::try_from("3.75Gi"));
    assert_eq!(bytes_of("3.75Gi"), 4026531840);
}

#[test]
fn unit_table_lookup() {
    assert_eq!(DataUnit::try_from("Ki"), Ok(DataUnit::Kibibyte));
    assert_eq!(DataUnit::try_from("Mi"), Ok(DataUnit::Mebibyte));
    assert_eq!(DataUnit::try_from("Qi"), Ok(DataUnit::Quebibyte));
    assert_eq!(DataUnit::try_from("k"), Ok(DataUnit::Kilobyte));
    assert_eq!(DataUnit::try_from("Q"), Ok(DataUnit::Quettabyte));
    assert_eq!(DataUnit::try_from("K"), Err("Invalid unit."));
    assert_eq!(DataUnit::try_from("ki"), Err("Invalid unit."));
    assert_eq!(DataUnit::try_from(""), Err("Invalid unit."));
    assert_eq!(DataUnit::try_from("Mib"), Err("Invalid unit."));
}

#[test]
fn unit_sizes_that_fit_u64() {
    assert_eq!(DataUnit::Kilobyte.to_bytes(), 1000);
    assert_eq!(DataUnit::Megabyte.to_bytes(), 1000u64.pow(2));
    assert_eq!(DataUnit::Gigabyte.to_bytes(), 1000u64.pow(3));
    assert_eq!(DataUnit::Terabyte.to_bytes(), 1000u64.pow(4));
    assert_eq!(DataUnit::Petabyte.to_bytes(), 1000u64.pow(5));
    assert_eq!(DataUnit::Exabyte.to_bytes(), 1000u64.pow(6));
    assert_eq!(DataUnit::Kibibyte.to_bytes(), 1024);
    assert_eq!(DataUnit::Mebibyte.to_bytes(), 1024u64.pow(2));
    assert_eq!(DataUnit::Gibibyte.to_bytes(), 1024u64.pow(3));
    assert_eq!(DataUnit::Tebibyte.to_bytes(), 1024u64.pow(4));
    assert_eq!(DataUnit::Pebibyte.to_bytes(), 1024u64.pow(5));
    assert_eq!(DataUnit::Exbibyte.to_bytes(), 1024u64.pow(6));
}

#[test]
fn unit_sizes_of_every_unit() {
    assert_eq!(DataUnit::Kilobyte.to_bytes_wide(), 1000);
    assert_eq!(DataUnit::Exabyte.to_bytes_wide(), 1000u128.pow(6));
    assert_eq!(DataUnit::Zettabyte.to_bytes_wide(), 1000u128.pow(7));
    assert_eq!(DataUnit::Yottabyte.to_bytes_wide(), 1000u128.pow(8));
    assert_eq!(DataUnit::Ronnabyte.to_bytes_wide(), 1000u128.pow(9));
    assert_eq!(DataUnit::Quettabyte.to_bytes_wide(), 1000u128.pow(10));
    assert_eq!(DataUnit::Kibibyte.to_bytes_wide(), 1024);
    assert_eq!(DataUnit::Zebibyte.to_bytes_wide(), 1024u128.pow(7));
    assert_eq!(DataUnit::Yobibyte.to_bytes_wide(), 1024u128.pow(8));
    assert_eq!(DataUnit::Robibyte.to_bytes_wide(), 1024u128.pow(9));
    assert_eq!(DataUnit::Quebibyte.to_bytes_wide(), 1024u128.pow(10));
}

#[test]
fn accessors_read_a_memory_quantity() {
    let memory = ResourceQuantity::Memory { bytes: 42 };
    let cpu = ResourceQuantity::Cpu { vcpu: 2 };
    assert_eq!(memory.as_memory(), Some(42));
    assert_eq!(cpu.as_memory(), None);
    assert_eq!(memory.as_cpu(), Some(42));
    assert_eq!(cpu.as_cpu(), None);
}

#[test]
fn quantities_of_one_kind_are_ordered_by_magnitude() {
    let small = ResourceQuantity::Memory { bytes: 1 };
    let large = ResourceQuantity::Memory { bytes: 2 };
    assert!(small < large);
    assert!(large > small);
    assert!(small <= small);
    assert_eq!(small.partial_cmp(&large), Some(std::cmp::Ordering::Less));
    assert_eq!(small.cmp(&large), std::cmp::Ordering::Less);
    assert_eq!(large.cmp(&large), std::cmp::Ordering::Equal);
    assert_eq!(
        ResourceQuantity::try_from("1Ki").unwrap().max(ResourceQuantity::try_from("1k").unwrap()),
        ResourceQuantity::Memory { bytes: 1024 }
    );
}

#[test]
fn memory_comes_before_cpu() {
    let memory = ResourceQuantity::Memory { bytes: 100 };
    let cpu = ResourceQuantity::Cpu { vcpu: 1 };
    assert!(memory < cpu);
    assert_eq!(memory.partial_cmp(&cpu), Some(memory.cmp(&cpu)));
    assert_eq!(cpu.partial_cmp(&memory), Some(cpu.cmp(&memory)));
    assert!(ResourceQuantity::Cpu { vcpu: 1 } < ResourceQuantity::Cpu { vcpu: 2 });
}

#[test]
fn parse_errors_have_messages() {
    assert_eq!(QuantityParseError::InvalidFormat.message(), "Invalid quantity format.");
    assert_eq!(QuantityParseError::InvalidUnit.message(), "Invalid quantity unit.");
}
