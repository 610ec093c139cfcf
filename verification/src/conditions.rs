//! The emoji that stands for a weather condition.

use crate::text::{lowercase, lowercase_text, same_text};
use vstd::prelude::*;

verus! {

/// The emoji of a condition label that is already in lowercase. Each known
/// label has one emoji; every other text has the partly-cloudy one.
pub open spec fn emoji_for(label: Seq<char>) -> Seq<char> {
    if label == "clear"@ {
        "\u{2600}\u{fe0f}"@
    } else if label == "thunderstorm"@ {
        "\u{26c8}\u{fe0f}"@
    } else if label == "drizzle"@ {
        "\u{1f326}\u{fe0f}"@
    } else if label == "rain"@ {
        "\u{1f327}\u{fe0f}"@
    } else if label == "snow"@ {
        "\u{2744}\u{fe0f}"@
    } else if is_obscuration(label) {
        "\u{1f32b}\u{fe0f}"@
    } else if label == "clouds"@ {
        "\u{2601}\u{fe0f}"@
    } else if label == "tornado"@ {
        "\u{1f32a}\u{fe0f}"@
    } else {
        "\u{1f324}\u{fe0f}"@
    }
}

/// The labels of conditions that obscure the view, which share the fog emoji.
pub open spec fn is_obscuration(label: Seq<char>) -> bool {
    ||| label == "mist"@
    ||| label == "smoke"@
    ||| label == "haze"@
    ||| label == "dust"@
    ||| label == "fog"@
    ||| label == "sand"@
    ||| label == "ash"@
    ||| label == "squall"@
}

/// The labels that the table knows.
pub open spec fn is_known_label(label: Seq<char>) -> bool {
    ||| label == "clear"@
    ||| label == "thunderstorm"@
    ||| label == "drizzle"@
    ||| label == "rain"@
    ||| label == "snow"@
    ||| is_obscuration(label)
    ||| label == "clouds"@
    ||| label == "tornado"@
}

/// The emoji of a condition label in any letter case.
pub open spec fn weather_emoji(condition: Seq<char>) -> Seq<char> {
    emoji_for(lowercase_text(condition))
}

/// Whether a lowercase label names one of the view-obscuring conditions.
fn names_obscuration(label: &str) -> (yes: bool)
    ensures
        yes == is_obscuration(label@),
{
    same_text(label, "mist") || same_text(label, "smoke") || same_text(label, "haze")
        || same_text(label, "dust") || same_text(label, "fog") || same_text(label, "sand")
        || same_text(label, "ash") || same_text(label, "squall")
}

/// Looks up the emoji of a condition label that is already in lowercase.
pub fn emoji_for_label(label: &str) -> (emoji: &'static str)
    ensures
        emoji@ == emoji_for(label@),
{
    if same_text(label, "clear") {
        "\u{2600}\u{fe0f}"
    } else if same_text(label, "thunderstorm") {
        "\u{26c8}\u{fe0f}"
    } else if same_text(label, "drizzle") {
        "\u{1f326}\u{fe0f}"
    } else if same_text(label, "rain") {
        "\u{1f327}\u{fe0f}"
    } else if same_text(label, "snow") {
        "\u{2744}\u{fe0f}"
    } else if names_obscuration(label) {
        "\u{1f32b}\u{fe0f}"
    } else if same_text(label, "clouds") {
        "\u{2601}\u{fe0f}"
    } else if same_text(label, "tornado") {
        "\u{1f32a}\u{fe0f}"
    } else {
        "\u{1f324}\u{fe0f}"
    }
}

/// Looks up the emoji of a condition label, whatever its letter case.
pub fn get_weather_emoji(condition: &str) -> (emoji: &'static str)
    ensures
        emoji@ == weather_emoji(condition@),
{
    let lower = lowercase(condition);
    emoji_for_label(lower.as_str())
}

/// The lookup ignores letter case: two labels with the same lowercase form
/// have the same emoji.
pub proof fn lemma_emoji_ignores_case(first: Seq<char>, second: Seq<char>)
    requires
        lowercase_text(first) == lowercase_text(second),
    ensures
        weather_emoji(first) == weather_emoji(second),
{
}

/// A label outside the table has the partly-cloudy emoji.
pub proof fn lemma_unknown_label_default(label: Seq<char>)
    requires
        !is_known_label(label),
    ensures
        emoji_for(label) == "\u{1f324}\u{fe0f}"@,
{
}

/// The table is a lookup by label and does not depend on the order of its
/// rows: the labels are pairwise different, so each has the emoji of its own
/// row.
pub proof fn lemma_emoji_table()
    ensures
        emoji_for("clear"@) == "\u{2600}\u{fe0f}"@,
        emoji_for("thunderstorm"@) == "\u{26c8}\u{fe0f}"@,
        emoji_for("drizzle"@) == "\u{1f326}\u{fe0f}"@,
        emoji_for("rain"@) == "\u{1f327}\u{fe0f}"@,
        emoji_for("snow"@) == "\u{2744}\u{fe0f}"@,
        emoji_for("mist"@) == "\u{1f32b}\u{fe0f}"@,
        emoji_for("smoke"@) == "\u{1f32b}\u{fe0f}"@,
        emoji_for("haze"@) == "\u{1f32b}\u{fe0f}"@,
        emoji_for("dust"@) == "\u{1f32b}\u{fe0f}"@,
        emoji_for("fog"@) == "\u{1f32b}\u{fe0f}"@,
        emoji_for("sand"@) == "\u{1f32b}\u{fe0f}"@,
        emoji_for("ash"@) == "\u{1f32b}\u{fe0f}"@,
        emoji_for("squall"@) == "\u{1f32b}\u{fe0f}"@,
        emoji_for("clouds"@) == "\u{2601}\u{fe0f}"@,
        emoji_for("tornado"@) == "\u{1f32a}\u{fe0f}"@,
{
    reveal_strlit("clear");
    reveal_strlit("thunderstorm");
    reveal_strlit("drizzle");
    reveal_strlit("rain");
    reveal_strlit("snow");
    reveal_strlit("mist");
    reveal_strlit("smoke");
    reveal_strlit("haze");
    reveal_strlit("dust");
    reveal_strlit("fog");
    reveal_strlit("sand");
    reveal_strlit("ash");
    reveal_strlit("squall");
    reveal_strlit("clouds");
    reveal_strlit("tornado");
    assert("clear"@[0] == 'c' && "clear"@[1] == 'l' && "clear"@[2] == 'e');
    assert("thunderstorm"@[0] == 't' && "thunderstorm"@[1] == 'h' && "thunderstorm"@[2] == 'u');
    assert("drizzle"@[0] == 'd' && "drizzle"@[1] == 'r' && "drizzle"@[2] == 'i');
    assert("rain"@[0] == 'r' && "rain"@[1] == 'a' && "rain"@[2] == 'i');
    assert("snow"@[0] == 's' && "snow"@[1] == 'n' && "snow"@[2] == 'o');
    assert("mist"@[0] == 'm' && "mist"@[1] == 'i' && "mist"@[2] == 's');
    assert("smoke"@[0] == 's' && "smoke"@[1] == 'm' && "smoke"@[2] == 'o');
    assert("haze"@[0] == 'h' && "haze"@[1] == 'a' && "haze"@[2] == 'z');
    assert("dust"@[0] == 'd' && "dust"@[1] == 'u' && "dust"@[2] == 's');
    assert("fog"@[0] == 'f' && "fog"@[1] == 'o' && "fog"@[2] == 'g');
    assert("sand"@[0] == 's' && "sand"@[1] == 'a' && "sand"@[2] == 'n');
    assert("ash"@[0] == 'a' && "ash"@[1] == 's' && "ash"@[2] == 'h');
    assert("squall"@[0] == 's' && "squall"@[1] == 'q' && "squall"@[2] == 'u');
    assert("clouds"@[0] == 'c' && "clouds"@[1] == 'l' && "clouds"@[2] == 'o');
    assert("tornado"@[0] == 't' && "tornado"@[1] == 'o' && "tornado"@[2] == 'r');
}

} // verus!
