use vulgar_fractions::single_character_fractions::find_single_character_fraction;
use vulgar_fractions::single_character_fractions::single_character_fractions;
use vulgar_fractions::VulgarFraction;

fn render(numerator: i64, denominator: i64) -> String {
    VulgarFraction::new(numerator, denominator).render()
}

#[test]
fn renders_a_large_numerator_with_every_superscript_digit() {
    assert_eq!(render(1234567890, 1), "¹²³⁴⁵⁶⁷⁸⁹⁰⁄₁");
}

#[test]
fn renders_a_large_denominator_with_every_subscript_digit() {
    assert_eq!(render(1, 1234567890), "¹⁄₁₂₃₄₅₆₇₈₉₀");
}

#[test]
fn renders_a_negative_numerator_with_a_superscript_minus() {
    assert_eq!(render(-5, 4), "⁻⁵⁄₄");
}

#[test]
fn renders_a_negative_denominator_with_a_subscript_minus() {
    assert_eq!(render(5, -4), "⁵⁄₋₄");
}

#[test]
fn renders_both_signs_when_both_parts_are_negative() {
    assert_eq!(render(-5, -4), "⁻⁵⁄₋₄");
}

#[test]
fn the_special_table_takes_precedence_even_for_a_zero_numerator() {
    assert_eq!(render(0, 3), "↉");
}

#[test]
fn every_special_table_entry_renders_as_its_single_glyph() {
    for ((numerator, denominator), glyph) in single_character_fractions() {
        assert_eq!(render(numerator, denominator), glyph.to_string());
    }
}

#[test]
fn pairs_absent_from_the_special_table_render_generically() {
    // Equal in value to one half, but not an exact key of the table.
    assert_eq!(render(2, 4), "²⁄₄");
    assert_eq!(render(10, 3), "¹⁰⁄₃");
    assert_eq!(render(-1, 2), "⁻¹⁄₂");
}

#[test]
fn a_zero_denominator_is_rendered_without_validation() {
    assert_eq!(render(7, 0), "⁷⁄₀");
    assert_eq!(render(0, 0), "⁰⁄₀");
}

#[test]
fn renders_the_most_negative_numerator_without_overflow() {
    assert_eq!(render(i64::MIN, 1), "⁻⁹²²³³⁷²⁰³⁶⁸⁵⁴⁷⁷⁵⁸⁰⁸⁄₁");
}

#[test]
fn renders_the_extreme_values_of_both_parts() {
    assert_eq!(render(i64::MAX, 1), "⁹²²³³⁷²⁰³⁶⁸⁵⁴⁷⁷⁵⁸⁰⁷⁄₁");
    assert_eq!(render(1, i64::MIN), "¹⁄₋₉₂₂₃₃₇₂₀₃₆₈₅₄₇₇₅₈₀₈");
}

#[test]
fn looks_up_only_exact_keys() {
    assert_eq!(find_single_character_fraction(1, 2), Some('½'));
    assert_eq!(find_single_character_fraction(7, 8), Some('⅞'));
    assert_eq!(find_single_character_fraction(2, 4), None);
    assert_eq!(find_single_character_fraction(-1, 2), None);
    assert_eq!(find_single_character_fraction(1, 11), None);
}
