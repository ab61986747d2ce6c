use energy_preferences::century::Century;
use energy_preferences::document::read_sources;
use energy_preferences::error::ErrorKind;
use energy_preferences::json::Json;
use energy_preferences::preferences::{EnergyPreferenceHistory, EnergyPreferences};
use energy_preferences::source::{Blubber, Crop, EnergySource, Fossil, Inexhaustible};

const SOLAR: EnergySource = EnergySource::Sustainable(Inexhaustible::Solar);
const WIND: EnergySource = EnergySource::Sustainable(Inexhaustible::Wind);
const SEAL: EnergySource = EnergySource::Animal(Blubber::Seal);
const SOY: EnergySource = EnergySource::Vegetable(Crop::Soy);
const PETROLEUM: EnergySource = EnergySource::Mineral(Fossil::Petroleum);

fn txt(value: &str) -> Json {
    Json::Text(value.to_string())
}

fn arr(items: Vec<Json>) -> Json {
    Json::Array(items)
}

fn obj(members: Vec<(&str, Json)>) -> Json {
    Json::Object(members.into_iter().map(|(name, value)| (name.to_string(), value)).collect())
}

fn example_preferences() -> Json {
    obj(vec![
        ("1800s", arr(vec![txt("solar"), obj(vec![("seal", Json::Null)])])),
        ("2000s", arr(vec![txt("wind"), txt("petroleum")])),
    ])
}

#[test]
fn new_preferences_speak_of_no_century() {
    let preferences = EnergyPreferences::new();
    assert_eq!(preferences.get(Century::NineteenthCentury), None);
    assert_eq!(preferences.get(Century::TwentiethCentury), None);
    assert_eq!(preferences.get(Century::TwentyFirstCentury), None);
}

#[test]
fn insert_then_get() {
    let mut preferences = EnergyPreferences::new();
    preferences.insert(Century::TwentiethCentury, vec![SOY, PETROLEUM]);
    assert_eq!(preferences.get(Century::TwentiethCentury), Some(&vec![SOY, PETROLEUM]));
    assert_eq!(preferences.get(Century::NineteenthCentury), None);
    assert_eq!(preferences.get(Century::TwentyFirstCentury), None);
}

#[test]
fn insert_replaces_and_leaves_the_others() {
    let mut preferences = EnergyPreferences::new();
    preferences.insert(Century::NineteenthCentury, vec![SEAL]);
    preferences.insert(Century::TwentyFirstCentury, vec![SOLAR, WIND]);
    preferences.insert(Century::NineteenthCentury, vec![]);
    assert_eq!(preferences.get(Century::NineteenthCentury), Some(&vec![]));
    assert_eq!(preferences.get(Century::TwentiethCentury), None);
    assert_eq!(preferences.get(Century::TwentyFirstCentury), Some(&vec![SOLAR, WIND]));
}

#[test]
fn sources_are_read_in_order() {
    let json = arr(vec![txt("petroleum"), txt("solar"), obj(vec![("seal", Json::Null)]), txt("solar")]);
    assert_eq!(read_sources(&json), Some(vec![PETROLEUM, SOLAR, SEAL, SOLAR]));
}

#[test]
fn empty_array_lists_no_sources() {
    assert_eq!(read_sources(&arr(vec![])), Some(vec![]));
}

#[test]
fn one_bad_item_refuses_the_array() {
    assert_eq!(read_sources(&arr(vec![txt("solar"), txt("nonexistent-source")])), None);
    assert_eq!(read_sources(&arr(vec![Json::Number, txt("solar")])), None);
    assert_eq!(read_sources(&arr(vec![arr(vec![txt("solar")])])), None);
}

#[test]
fn sources_must_be_an_array() {
    assert_eq!(read_sources(&txt("solar")), None);
    assert_eq!(read_sources(&obj(vec![("solar", Json::Null)])), None);
    assert_eq!(read_sources(&Json::Null), None);
}

#[test]
fn preferences_are_read_by_century() {
    let preferences = EnergyPreferences::from_json(&example_preferences()).unwrap();
    assert_eq!(preferences.get(Century::NineteenthCentury), Some(&vec![SOLAR, SEAL]));
    assert_eq!(preferences.get(Century::TwentiethCentury), None);
    assert_eq!(preferences.get(Century::TwentyFirstCentury), Some(&vec![WIND, PETROLEUM]));
}

#[test]
fn empty_object_holds_empty_preferences() {
    assert_eq!(EnergyPreferences::from_json(&obj(vec![])), Some(EnergyPreferences::new()));
}

#[test]
fn later_member_of_a_century_replaces_an_earlier_one() {
    let json = obj(vec![
        ("1800s", arr(vec![txt("solar")])),
        ("1900s", arr(vec![txt("soy")])),
        ("1800s", arr(vec![txt("wind"), txt("seal")])),
    ]);
    let preferences = EnergyPreferences::from_json(&json).unwrap();
    assert_eq!(preferences.get(Century::NineteenthCentury), Some(&vec![WIND, SEAL]));
    assert_eq!(preferences.get(Century::TwentiethCentury), Some(&vec![SOY]));
    assert_eq!(preferences.get(Century::TwentyFirstCentury), None);
}

#[test]
fn replaced_member_must_still_be_well_formed() {
    let json = obj(vec![
        ("1800s", arr(vec![txt("nonexistent-source")])),
        ("1800s", arr(vec![txt("wind")])),
    ]);
    assert_eq!(EnergyPreferences::from_json(&json), None);
}

#[test]
fn unknown_century_refuses_the_preferences() {
    let json = obj(vec![("1800s", arr(vec![txt("solar")])), ("1700s", arr(vec![txt("solar")]))]);
    assert_eq!(EnergyPreferences::from_json(&json), None);
}

#[test]
fn century_must_list_sources() {
    assert_eq!(EnergyPreferences::from_json(&obj(vec![("1800s", txt("solar"))])), None);
    assert_eq!(
        EnergyPreferences::from_json(&obj(vec![("1800s", obj(vec![("solar", Json::Null)]))])),
        None
    );
    assert_eq!(EnergyPreferences::from_json(&obj(vec![("1800s", Json::Null)])), None);
}

#[test]
fn preferences_must_be_an_object() {
    assert_eq!(EnergyPreferences::from_json(&arr(vec![])), None);
    assert_eq!(EnergyPreferences::from_json(&txt("1800s")), None);
    assert_eq!(EnergyPreferences::from_json(&Json::Null), None);
    assert_eq!(EnergyPreferences::from_json(&Json::Bool(true)), None);
    assert_eq!(EnergyPreferences::from_json(&Json::Number), None);
}

#[test]
fn history_is_read_from_its_field() {
    let json = obj(vec![("energy-preferences", example_preferences())]);
    let history = EnergyPreferenceHistory::from_json(&json).unwrap();
    assert_eq!(history.energy_preferences.get(Century::NineteenthCentury), Some(&vec![SOLAR, SEAL]));
    assert_eq!(history.energy_preferences.get(Century::TwentiethCentury), None);
    assert_eq!(
        history.energy_preferences.get(Century::TwentyFirstCentury),
        Some(&vec![WIND, PETROLEUM])
    );
}

#[test]
fn members_of_other_names_are_passed_over() {
    let json = obj(vec![
        ("comment", txt("not part of the model")),
        ("energy-preferences", example_preferences()),
        ("version", Json::Number),
    ]);
    let history = EnergyPreferenceHistory::from_json(&json).unwrap();
    assert_eq!(history.energy_preferences.get(Century::NineteenthCentury), Some(&vec![SOLAR, SEAL]));
}

#[test]
fn history_without_the_field_is_bad_json() {
    assert_eq!(EnergyPreferenceHistory::from_json(&obj(vec![])), Err(ErrorKind::BadJson));
    assert_eq!(
        EnergyPreferenceHistory::from_json(&obj(vec![("energy_preferences", example_preferences())])),
        Err(ErrorKind::BadJson)
    );
    assert_eq!(
        EnergyPreferenceHistory::from_json(&obj(vec![("Energy-Preferences", example_preferences())])),
        Err(ErrorKind::BadJson)
    );
}

#[test]
fn history_with_the_field_twice_is_bad_json() {
    let json = obj(vec![
        ("energy-preferences", example_preferences()),
        ("energy-preferences", example_preferences()),
    ]);
    assert_eq!(EnergyPreferenceHistory::from_json(&json), Err(ErrorKind::BadJson));
}

#[test]
fn history_whose_field_holds_no_preferences_is_bad_json() {
    assert_eq!(
        EnergyPreferenceHistory::from_json(&obj(vec![("energy-preferences", arr(vec![]))])),
        Err(ErrorKind::BadJson)
    );
    assert_eq!(
        EnergyPreferenceHistory::from_json(&obj(vec![(
            "energy-preferences",
            obj(vec![("1700s", arr(vec![txt("solar")]))])
        )])),
        Err(ErrorKind::BadJson)
    );
}

#[test]
fn history_must_be_an_object() {
    assert_eq!(EnergyPreferenceHistory::from_json(&Json::Null), Err(ErrorKind::BadJson));
    assert_eq!(EnergyPreferenceHistory::from_json(&Json::Number), Err(ErrorKind::BadJson));
    assert_eq!(EnergyPreferenceHistory::from_json(&txt("energy-preferences")), Err(ErrorKind::BadJson));
    assert_eq!(
        EnergyPreferenceHistory::from_json(&arr(vec![example_preferences()])),
        Err(ErrorKind::BadJson)
    );
}
