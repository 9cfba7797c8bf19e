use printer_actions::filaments::{Filament, HotEndTemperature};

#[test]
fn hot_end_temperature_accepts_only_one_to_250() {
    assert!(HotEndTemperature::new(0).is_none());
    assert_eq!(HotEndTemperature::new(1).map(|t| t.degrees()), Some(1));
    assert_eq!(HotEndTemperature::new(200).map(|t| t.degrees()), Some(200));
    assert_eq!(HotEndTemperature::new(250).map(|t| t.degrees()), Some(250));
    assert!(HotEndTemperature::new(251).is_none());
    assert!(HotEndTemperature::new(u32::MAX).is_none());
}

#[test]
fn filaments_map_to_their_temperatures() {
    assert_eq!(u32::from(HotEndTemperature::from(Filament::PLA)), 200);
    assert_eq!(u32::from(HotEndTemperature::from(Filament::PETG)), 230);
    assert_eq!(u32::from(HotEndTemperature::from(Filament::TPU)), 220);
    assert_eq!(i64::from(HotEndTemperature::from(Filament::PETG)), 230);
}

#[test]
fn filament_names_parse() {
    assert_eq!(Filament::parse("PLA"), Ok(Filament::PLA));
    assert_eq!(Filament::parse("PETG"), Ok(Filament::PETG));
    assert_eq!(Filament::parse("TPU"), Ok(Filament::TPU));
    assert_eq!(Filament::parse("pla"), Err(()));
    assert_eq!(Filament::parse(""), Err(()));
    assert_eq!(Filament::parse("PLA "), Err(()));
    assert_eq!("TPU".parse::<Filament>(), Ok(Filament::TPU));
}

#[test]
fn within_five_degrees_includes_both_ends() {
    let t = HotEndTemperature::new(200).unwrap();
    // readings are in hundredths of a degree
    assert!(t.within_5_degrees_of(20000));
    assert!(t.within_5_degrees_of(19500));
    assert!(t.within_5_degrees_of(20500));
    assert!(!t.within_5_degrees_of(19499));
    assert!(!t.within_5_degrees_of(20501));
    assert!(!t.within_5_degrees_of(2150));
    assert!(!t.within_5_degrees_of(i64::MIN));
    assert!(!t.within_5_degrees_of(i64::MAX));
}
