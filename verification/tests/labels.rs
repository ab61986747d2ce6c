use energy_preferences::century::Century;
use energy_preferences::source::{Blubber, Crop, EnergySource, Fossil, Inexhaustible};
use energy_preferences::text::same_text;

#[test]
fn century_labels() {
    assert_eq!(Century::NineteenthCentury.label(), "1800s");
    assert_eq!(Century::TwentiethCentury.label(), "1900s");
    assert_eq!(Century::TwentyFirstCentury.label(), "2000s");
}

#[test]
fn century_from_label() {
    assert_eq!(Century::from_label("1800s"), Some(Century::NineteenthCentury));
    assert_eq!(Century::from_label("1900s"), Some(Century::TwentiethCentury));
    assert_eq!(Century::from_label("2000s"), Some(Century::TwentyFirstCentury));
}

#[test]
fn unknown_century_label_is_refused() {
    assert_eq!(Century::from_label("1700s"), None);
    assert_eq!(Century::from_label("1800"), None);
    assert_eq!(Century::from_label("1800S"), None);
    assert_eq!(Century::from_label(" 1800s"), None);
    assert_eq!(Century::from_label(""), None);
}

#[test]
fn century_label_round_trip() {
    for century in [
        Century::NineteenthCentury,
        Century::TwentiethCentury,
        Century::TwentyFirstCentury,
    ] {
        assert_eq!(Century::from_label(century.label()), Some(century));
    }
}

#[test]
fn inexhaustible_labels() {
    assert_eq!(Inexhaustible::Solar.label(), "solar");
    assert_eq!(Inexhaustible::Wind.label(), "wind");
    assert_eq!(Inexhaustible::from_label("solar"), Some(Inexhaustible::Solar));
    assert_eq!(Inexhaustible::from_label("wind"), Some(Inexhaustible::Wind));
    assert_eq!(Inexhaustible::from_label("seal"), None);
}

#[test]
fn blubber_labels() {
    assert_eq!(Blubber::Seal.label(), "seal");
    assert_eq!(Blubber::Whale.label(), "whale");
    assert_eq!(Blubber::from_label("seal"), Some(Blubber::Seal));
    assert_eq!(Blubber::from_label("whale"), Some(Blubber::Whale));
    assert_eq!(Blubber::from_label("wind"), None);
}

#[test]
fn crop_labels() {
    assert_eq!(Crop::Peanut.label(), "peanut");
    assert_eq!(Crop::Soy.label(), "soy");
    assert_eq!(Crop::from_label("peanut"), Some(Crop::Peanut));
    assert_eq!(Crop::from_label("soy"), Some(Crop::Soy));
    assert_eq!(Crop::from_label("soya"), None);
}

#[test]
fn fossil_labels() {
    assert_eq!(Fossil::Kerosene.label(), "kerosene");
    assert_eq!(Fossil::Petroleum.label(), "petroleum");
    assert_eq!(Fossil::from_label("kerosene"), Some(Fossil::Kerosene));
    assert_eq!(Fossil::from_label("petroleum"), Some(Fossil::Petroleum));
    assert_eq!(Fossil::from_label("coal"), None);
}

#[test]
fn labels_are_lower_case_only() {
    assert_eq!(Inexhaustible::from_label("Solar"), None);
    assert_eq!(Blubber::from_label("SEAL"), None);
    assert_eq!(Crop::from_label("Soy"), None);
    assert_eq!(Fossil::from_label("Petroleum"), None);
}

#[test]
fn source_label_is_that_of_its_family_member() {
    assert_eq!(EnergySource::Sustainable(Inexhaustible::Wind).label(), "wind");
    assert_eq!(EnergySource::Animal(Blubber::Whale).label(), "whale");
    assert_eq!(EnergySource::Vegetable(Crop::Peanut).label(), "peanut");
    assert_eq!(EnergySource::Mineral(Fossil::Kerosene).label(), "kerosene");
}

#[test]
fn same_text_compares_characters() {
    assert!(same_text("", ""));
    assert!(same_text("solar", "solar"));
    assert!(!same_text("solar", "sola"));
    assert!(!same_text("sola", "solar"));
    assert!(!same_text("solar", "solas"));
    assert!(!same_text("wind", "seal"));
    assert!(same_text("\u{e9}nergie", "\u{e9}nergie"));
    assert!(!same_text("\u{e9}nergie", "energie"));
}
