use optspec::builder::OptBuilder;
use optspec::settings::ArgSettings;
use optspec::usage::usage_fragment;
use vec_map::VecMap;

#[test]
fn optbuilder_display1() {
    let mut o = OptBuilder::new("opt");
    o.long = Some("option");
    o.settings.set(ArgSettings::Multiple);

    assert_eq!(&*o.usage(), "--option <opt>...");
}

#[test]
fn optbuilder_display2() {
    let mut v_names = VecMap::new();
    v_names.insert(0, "file");
    v_names.insert(1, "name");

    let mut o2 = OptBuilder::new("opt");
    o2.short = Some('o');
    o2.val_names = Some(v_names);

    assert_eq!(&*o2.usage(), "-o <file> <name>");
}

#[test]
fn optbuilder_display3() {
    let mut v_names = VecMap::new();
    v_names.insert(0, "file");
    v_names.insert(1, "name");

    let mut o2 = OptBuilder::new("opt");
    o2.short = Some('o');
    o2.val_names = Some(v_names);
    o2.settings.set(ArgSettings::Multiple);

    assert_eq!(&*o2.usage(), "-o <file> <name>");
}

#[test]
fn optbuilder_display_single_alias() {
    let mut o = OptBuilder::new("opt");
    o.long = Some("option");
    o.aliases = Some(vec![("als", true)]);

    assert_eq!(&*o.usage(), "--option <opt>");
}

#[test]
fn optbuilder_display_multiple_aliases() {
    let mut o = OptBuilder::new("opt");
    o.long = Some("option");
    o.aliases = Some(vec![
        ("als_not_visible", false),
        ("als2", true),
        ("als3", true),
        ("als4", true),
    ]);
    assert_eq!(&*o.usage(), "--option <opt>");
}

#[test]
fn usage_prefers_long_switch() {
    let mut o = OptBuilder::new("opt");
    o.short = Some('o');
    o.long = Some("option");
    assert_eq!(o.usage(), "--option <opt>");
}

#[test]
fn usage_short_switch_alone() {
    let mut o = OptBuilder::new("opt");
    o.short = Some('o');
    assert_eq!(o.usage(), "-o <opt>");
    o.settings.set(ArgSettings::Multiple);
    assert_eq!(o.usage(), "-o <opt>...");
}

#[test]
fn usage_single_val_name_repeats_when_multiple() {
    let mut v_names = VecMap::new();
    v_names.insert(0, "file");

    let mut o = OptBuilder::new("opt");
    o.long = Some("input");
    o.val_names = Some(v_names);
    assert_eq!(o.usage(), "--input <file>");
    o.settings.set(ArgSettings::Multiple);
    assert_eq!(o.usage(), "--input <file>...");
}

#[test]
fn usage_val_names_in_ascending_key_order() {
    let mut v_names = VecMap::new();
    v_names.insert(7, "last");
    v_names.insert(2, "middle");
    v_names.insert(0, "first");

    let mut o = OptBuilder::new("opt");
    o.short = Some('x');
    o.val_names = Some(v_names);
    o.num_vals = Some(1);
    assert_eq!(o.usage(), "-x <first> <middle> <last>");
}

#[test]
fn usage_empty_val_names_show_no_value() {
    let mut o = OptBuilder::new("opt");
    o.long = Some("option");
    o.val_names = Some(VecMap::new());
    o.settings.set(ArgSettings::Multiple);
    assert_eq!(o.usage(), "--option ");
}

#[test]
fn usage_num_vals_repeats_option_name() {
    let mut o = OptBuilder::new("opt");
    o.long = Some("option");
    o.num_vals = Some(3);
    assert_eq!(o.usage(), "--option <opt> <opt> <opt>");
    o.settings.set(ArgSettings::Multiple);
    assert_eq!(o.usage(), "--option <opt> <opt> <opt>");
}

#[test]
fn usage_num_vals_of_one_has_no_ellipsis() {
    let mut o = OptBuilder::new("opt");
    o.long = Some("option");
    o.num_vals = Some(1);
    o.settings.set(ArgSettings::Multiple);
    assert_eq!(o.usage(), "--option <opt>");
}

#[test]
fn usage_num_vals_of_zero_shows_no_value() {
    let mut o = OptBuilder::new("opt");
    o.short = Some('z');
    o.num_vals = Some(0);
    assert_eq!(o.usage(), "-z ");
}

#[test]
fn usage_is_the_same_with_and_without_aliases() {
    let mut plain = OptBuilder::new("opt");
    plain.long = Some("option");
    plain.settings.set(ArgSettings::Multiple);
    let mut aliased = plain.clone();
    aliased.aliases = Some(vec![("hidden", false), ("shown", true)]);
    assert_eq!(plain.usage(), aliased.usage());
}

#[test]
fn usage_fragment_from_parts() {
    let names = vec!["file", "name"];
    assert_eq!(
        usage_fragment("opt", Some('o'), None, Some(&names), Some(5), true),
        "-o <file> <name>"
    );
    assert_eq!(
        usage_fragment("opt", Some('o'), Some("out"), None, Some(2), false),
        "--out <opt> <opt>"
    );
    assert_eq!(
        usage_fragment("opt", None, Some("out"), None, None, false),
        "--out <opt>"
    );
    let one = vec!["file"];
    assert_eq!(
        usage_fragment("opt", None, Some("out"), Some(&one), None, true),
        "--out <file>..."
    );
}

#[test]
fn usage_keeps_non_ascii_text() {
    let mut o = OptBuilder::new("größe");
    o.short = Some('é');
    assert_eq!(o.usage(), "-é <größe>");
}
