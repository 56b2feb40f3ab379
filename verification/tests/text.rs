use tusslehussle::text::text_util::render_bar_with_num;
use tusslehussle::text::{BarStyle, FrameType, InfoGrid, InfoLine, JointType, TextFormatting};

#[test]
fn test_number_shortening() {
    let numbers: Vec<i64> = vec![14324343, -123123123, 534_543, 425_431_242, 2342342334, 1];

    for n in numbers {
        let res = n.format_line(5, TextFormatting::Plain);
        println!("{}", res);
        assert_eq!(res.len(), 5);
    }
}

#[test]
fn number_shortening_exact() {
    assert_eq!(14324343i64.format_line(5, TextFormatting::Plain), "14.3 ");
    assert_eq!((-123123123i64).format_line(5, TextFormatting::Plain), "-123 ");
    assert_eq!(534_543i64.format_line(5, TextFormatting::Plain), "535  ");
    assert_eq!(425_431_242i64.format_line(5, TextFormatting::Plain), "425  ");
    assert_eq!(2342342334i64.format_line(5, TextFormatting::Plain), "2.34 ");
    assert_eq!(1i64.format_line(5, TextFormatting::Plain), "1    ");
    assert_eq!(0i64.format_line(3, TextFormatting::Plain), "0  ");
    assert_eq!(999_999i64.format_line(5, TextFormatting::Plain), "1000 ");
    assert_eq!(1450i64.format_line(5, TextFormatting::Plain), "1.45 ");
    assert_eq!(1450i64.format_line(12, TextFormatting::Plain), "1.45        ");
    assert_eq!(534_500i64.format_line(5, TextFormatting::Plain), "534  ");
    assert_eq!(535_500i64.format_line(5, TextFormatting::Plain), "536  ");
    assert_eq!(i64::MIN.format_line(0, TextFormatting::Plain), "-9223372037");
    assert_eq!(100i64.format_line(0, TextFormatting::Plain), "100");
}

#[test]
fn string_lines_are_padded_or_cut() {
    assert_eq!("abc".to_string().format_line(3, TextFormatting::Plain), "abc");
    assert_eq!("abc".to_string().format_line(5, TextFormatting::Plain), "abc  ");
    assert_eq!("abcdef".to_string().format_line(4, TextFormatting::Plain), "abcd..");
    assert_eq!("".to_string().format_line(0, TextFormatting::Plain), "");
}

#[test]
fn test_bars() {
    let styles =
        vec![BarStyle::DoubleLines, BarStyle::TwoChars('█', '▒'), BarStyle::SingleChar('~')];

    for i in 0..4 {
        let val = 100 - 20 * i;
        println!("val:{val}:");
        for style in styles.iter() {
            println!("{}", style.render_bar(16, val, 100))
        }
    }
}

#[test]
fn bars_exact() {
    // 60 of 100 in 16 characters: floor(9.6) = 9 filled
    assert_eq!(BarStyle::TwoChars('#', '-').render_bar(16, 60, 100), "#########-------");
    assert_eq!(BarStyle::SingleChar('~').render_bar(16, 60, 100), "~~~~~~~~~       ");
    // double lines: beyond the half, floor(0.1 * 2 * 16) = 3 of the second layer
    assert_eq!(BarStyle::DoubleLines.render_bar(16, 60, 100), ":::.............");
    // double lines: below the half, floor(0.4 * 2 * 16) = 12 of the first layer
    assert_eq!(BarStyle::DoubleLines.render_bar(16, 40, 100), "............    ");
    assert_eq!(BarStyle::DoubleLines.render_bar(16, 100, 100), "::::::::::::::::");
    assert_eq!(BarStyle::DoubleLines.render_bar(4, 50, 100), "....");
    // full, empty, overfull and negative
    assert_eq!(BarStyle::TwoChars('#', '-').render_bar(4, 100, 100), "####");
    assert_eq!(BarStyle::TwoChars('#', '-').render_bar(4, 0, 100), "----");
    assert_eq!(BarStyle::TwoChars('#', '-').render_bar(4, 150, 100), "######");
    assert_eq!(BarStyle::TwoChars('#', '-').render_bar(4, -50, 100), "----");
    assert_eq!(BarStyle::SingleChar('x').render_bar(4, 150, 100), "xxxxxx");
    // no maximum: nothing is filled
    assert_eq!(BarStyle::TwoChars('#', '-').render_bar(4, 5, 0), "----");
    // a negative maximum turns the share around
    assert_eq!(BarStyle::TwoChars('#', '-').render_bar(4, -50, -100), "##--");
    assert_eq!(BarStyle::TwoChars('#', '-').render_bar(0, 50, 100), "");
}

#[test]
fn labelled_bars() {
    // below twelve characters the bar stands alone behind its label
    assert_eq!(
        render_bar_with_num("HP:", 9, 50, 100, BarStyle::TwoChars('#', '-'), None, None),
        "HP:###---"
    );
    // from twelve characters on the number is shown
    assert_eq!(
        render_bar_with_num("HP:", 15, 50, 100, BarStyle::TwoChars('#', '-'), None, None),
        "HP: 50   ###---"
    );
    assert_eq!(
        render_bar_with_num("HP:", 15, 50, 100, BarStyle::TwoChars('#', '-'), Some(('<', '>')), None),
        "HP: 50   <##-->"
    );
    let f = TextFormatting::Console;
    assert_eq!(
        render_bar_with_num(
            "HP:",
            9,
            50,
            100,
            BarStyle::TwoChars('#', '-'),
            Some(('<', '>')),
            Some((&f, "hp", "Hitpoint Infos".to_string()))
        ),
        "HP:<\x1b[31m##--\x1b[0m>"
    );
    // a label that leaves no room leaves no bar
    assert_eq!(
        render_bar_with_num("Hitpoints:", 4, 50, 100, BarStyle::TwoChars('#', '-'), None, None),
        "Hitpoints:"
    );
}

#[test]
fn test_wordwrap() {
    let words = TextFormatting::Console.to_words(
        "Mary had a super awesome lamb full of funny moments".to_string(),
        "test",
        None,
    );

    for line in words.display(10, 4, TextFormatting::Console) {
        println!("{}", line);
    }
}

#[test]
fn wordwrap_exact() {
    let words = TextFormatting::Plain.to_words(
        "Mary had a super awesome lamb full of funny moments".to_string(),
        "test",
        None,
    );
    assert_eq!(words.len(), 10);
    assert_eq!(words[0], ("Mary".to_string(), 4));
    assert_eq!(
        words.display(10, 4, TextFormatting::Plain),
        vec!["Mary had a", "super     ", "awesome   ", "lamb full "]
    );
    assert_eq!(
        words.display(10, 7, TextFormatting::Plain),
        vec![
            "Mary had a",
            "super     ",
            "awesome   ",
            "lamb full ",
            "of funny  ",
            "moments   ",
            "          "
        ]
    );
    // a word that is wider than the line gets a line of its own
    let wide = TextFormatting::Plain.to_words("a incomprehensible b".to_string(), "", None);
    assert_eq!(wide.display(5, 3, TextFormatting::Plain), vec!["a    ", "incomprehensible", "b    "]);
    // no words at all: one blank line, then the filling
    let none = TextFormatting::Plain.to_words("   ".to_string(), "", None);
    assert_eq!(none.len(), 0);
    assert_eq!(none.display(3, 2, TextFormatting::Plain), vec!["   ", "   "]);
    assert_eq!(none.display(3, 0, TextFormatting::Plain), Vec::<String>::new());
}

#[test]
fn words_are_enriched() {
    let html = TextFormatting::Html.to_words("two\twords ".to_string(), "hp", Some("more".to_string()));
    assert_eq!(
        html,
        vec![
            ("<span class=\"hp\"data-info=\"more\">two</span>".to_string(), 3),
            ("<span class=\"hp\">words</span>".to_string(), 5)
        ]
    );
    let console = TextFormatting::Console.to_words("red".to_string(), "hp", None);
    assert_eq!(console, vec![("\x1b[31mred\x1b[0m".to_string(), 3)]);
    assert_eq!(TextFormatting::format_console("x".to_string(), "mp"), "\x1b[34mx\x1b[0m");
    assert_eq!(TextFormatting::format_console("x".to_string(), "ap"), "\x1b[32mx\x1b[0m");
    assert_eq!(TextFormatting::format_console("x".to_string(), "PHY"), "\x1b[34mx\x1b[0m");
    assert_eq!(TextFormatting::format_console("x".to_string(), "other"), "x\x1b[0m");
    assert_eq!(TextFormatting::Plain.enrich_text("x".to_string(), "hp", None), "x");
    assert_eq!(TextFormatting::format_html("x".to_string(), "c", None), "<span class=\"c\">x</span>");
    // words are counted in bytes
    let wide = TextFormatting::Plain.to_words("né".to_string(), "", None);
    assert_eq!(wide, vec![("né".to_string(), 3)]);
}

#[test]
fn frames() {
    assert_eq!(FrameType::Single.hor(), '─');
    assert_eq!(FrameType::Double.hor(), '━');
    assert_eq!(FrameType::Single.ver(), '│');
    assert_eq!(FrameType::Double.ver(), '┃');
    assert_eq!(FrameType::Single.top_left(), '┌');
    assert_eq!(FrameType::Double.top_left(), '╔');
    assert_eq!(FrameType::Single.top_right(), '┐');
    assert_eq!(FrameType::Double.top_right(), '╗');
    assert_eq!(FrameType::Single.bottom_left(), '└');
    assert_eq!(FrameType::Double.bottom_left(), '╚');
    assert_eq!(FrameType::Single.bottom_right(), '┘');
    assert_eq!(FrameType::Double.bottom_right(), '╝');
    assert_eq!(FrameType::Single.joint(JointType::TUp), '┴');
    assert_eq!(FrameType::Single.joint(JointType::TDown), '┬');
    assert_eq!(FrameType::Single.joint(JointType::TLeft), '┤');
    assert_eq!(FrameType::Single.joint(JointType::TRight), '├');
    assert_eq!(FrameType::Single.joint(JointType::Cross), '┼');
    assert_eq!(FrameType::Double.joint(JointType::TUp), '╩');
    assert_eq!(FrameType::Double.joint(JointType::TDown), '╦');
    assert_eq!(FrameType::Double.joint(JointType::TLeft), '╣');
    assert_eq!(FrameType::Double.joint(JointType::TRight), '╠');
    assert_eq!(FrameType::Double.joint(JointType::Cross), '╬');
}
