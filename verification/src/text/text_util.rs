//! Helpers that put the pieces of the parent module together.
use vstd::prelude::*;
use crate::strutil::{byte_len, str_len};
use crate::text::{bar_text, enriched, shortened, BarStyle, InfoLine, TextFormatting};

verus! {

/// The room for the bar of a labelled bar of `max_len` characters: what the
/// label leaves, less six characters for the number where it is shown, less
/// two for the wrappers where there are any.
pub open spec fn bar_room(label: Seq<char>, max_len: nat, wrapped: bool) -> nat {
    let taken = byte_len(label) + (if max_len >= 12 {
        6nat
    } else {
        0nat
    }) + (if wrapped {
        2nat
    } else {
        0nat
    });
    if taken > max_len {
        0
    } else {
        (max_len - taken) as nat
    }
}

/// A bar with its label in `max_len` characters.
///
/// The label comes first. From twelve characters on, a space and the number
/// in five characters follow. Then comes the bar in the room that is left,
/// enriched where formatting information is given, and between its wrappers
/// where there are any.
pub open spec fn labelled_bar(
    label: Seq<char>,
    max_len: nat,
    num: int,
    bar_max: int,
    bar_style: BarStyle,
    bar_wrappers: Option<(char, char)>,
    formatting_info: Option<(TextFormatting, Seq<char>, Seq<char>)>,
) -> Seq<char> {
    let head = if max_len >= 12 {
        label + seq![' '] + shortened(num, 5)
    } else {
        label
    };
    let bar = bar_text(bar_style, bar_room(label, max_len, bar_wrappers is Some), num, bar_max);
    let shown = match formatting_info {
        None => bar,
        Some((formatting, info_class, more_info)) => enriched(
            formatting,
            bar,
            info_class,
            Some(more_info),
        ),
    };
    match bar_wrappers {
        None => head + shown,
        Some((a, b)) => head + seq![a] + shown + seq![b],
    }
}

/// The view of formatting information.
pub open spec fn formatting_view(info: Option<(&TextFormatting, &str, String)>) -> Option<
    (TextFormatting, Seq<char>, Seq<char>),
> {
    match info {
        None => None,
        Some((formatting, info_class, more_info)) => Some((*formatting, info_class@, more_info@)),
    }
}

/// Renders a bar with its label.
pub fn render_bar_with_num(
    label: &str,
    max_len: usize,
    num: i64,
    bar_max: i64,
    bar_style: BarStyle,
    bar_wrappers: Option<(char, char)>,
    formatting_info: Option<(&TextFormatting, &str, String)>,
) -> (result: String)
    ensures
        result@ == labelled_bar(
            label@,
            max_len as nat,
            num as int,
            bar_max as int,
            bar_style,
            bar_wrappers,
            formatting_view(formatting_info),
        ),
{
    let mut result = String::from_str(label);
    let label_len = str_len(label);
    // What the label leaves
    let mut bar_size: usize = if label_len > max_len {
        0
    } else {
        max_len - label_len
    };
    if max_len < 12 {
        // The smallest case: the bar alone
    } else {
        // A space and five characters for the number
        result.push(' ');
        let number = num.format_line(5, TextFormatting::Plain);
        result.append(number.as_str());
        bar_size = if bar_size < 6 {
            0
        } else {
            bar_size - 6
        };
    }
    // Wrappers take two characters off the bar.
    if let Some(_) = bar_wrappers {
        bar_size = if bar_size < 2 {
            0
        } else {
            bar_size - 2
        };
    }
    // The bar itself, enriched where formatting information is given
    let bar_string = match formatting_info {
        None => bar_style.render_bar(bar_size, num, bar_max),
        Some((f, i_class, more_i)) => f.enrich_text(
            bar_style.render_bar(bar_size, num, bar_max),
            i_class,
            Some(more_i),
        ),
    };
    match bar_wrappers {
        None => {
            result.append(bar_string.as_str());
        },
        Some((a, b)) => {
            result.push(a);
            result.append(bar_string.as_str());
            result.push(b);
        },
    }
    result
}

} // verus!
