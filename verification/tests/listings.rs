use tf::filetype::FileTypes;
use tf::listing::{column_of, filetype_row, show_supported_filetypes};
use tf::paint::{error_tag, filetype_extension, filetype_name, heading};

fn plain() {
    colored::control::set_override(false);
}

#[test]
fn the_list_is_shown_line_for_line() {
    plain();
    assert_eq!(
        show_supported_filetypes(),
        vec![
            "Software Filetypes:",
            "  C      : '.c'",
            "  H      : '.h'",
            "  Python : '.py'",
            "  CPP    : '.cpp'",
            "  HPP    : '.hpp'",
            "  Bash   : '.bash'",
            "",
            "HDL Filetypes:",
            "  SystemVerilog (module)  : '.sv'",
            "  SystemVerilog (package) : '.svh'",
        ]
    );
}

#[test]
fn the_colons_under_one_heading_stand_in_one_column() {
    plain();
    let lines = show_supported_filetypes();
    for line in &lines[1..7] {
        assert_eq!(line.find(": '"), Some(9));
    }
    for line in &lines[9..11] {
        assert_eq!(line.find(": '"), Some(26));
    }
}

#[test]
fn a_row_takes_name_and_extension_as_they_are() {
    assert_eq!(filetype_row(FileTypes::C, "C", ".c"), "  C      : '.c'");
    assert_eq!(filetype_row(FileTypes::Python, "<b>Python</b>", "[.py]"), "  <b>Python</b> : '[.py]'");
    assert_eq!(filetype_row(FileTypes::Bash, "", ""), "     : ''");
    assert_eq!(
        filetype_row(FileTypes::SystemVerilogModule, "SystemVerilog (module)", ".sv"),
        "  SystemVerilog (module)  : '.sv'"
    );
    assert_eq!(
        filetype_row(FileTypes::SystemVerilogPackage, "x", "y"),
        "  x : 'y'"
    );
}

#[test]
fn the_gap_of_a_row_goes_by_the_plain_name() {
    assert_eq!(
        filetype_row(FileTypes::CPP, "\x1b[1;96mCPP\x1b[0m", "\x1b[1;92m.cpp\x1b[0m"),
        "  \x1b[1;96mCPP\x1b[0m    : '\x1b[1;92m.cpp\x1b[0m'"
    );
}

#[test]
fn without_colours_a_painted_text_is_the_text() {
    plain();
    assert_eq!(heading("Software Filetypes:"), "Software Filetypes:");
    assert_eq!(filetype_name("Python"), "Python");
    assert_eq!(filetype_extension(".py"), ".py");
    assert_eq!(error_tag("ERROR"), "ERROR");
    assert_eq!(error_tag(""), "");
}

#[test]
fn the_colon_stands_one_past_the_longest_name_of_its_group() {
    let software = [
        FileTypes::C,
        FileTypes::H,
        FileTypes::Python,
        FileTypes::CPP,
        FileTypes::HPP,
        FileTypes::Bash,
    ];
    let hardware = [FileTypes::SystemVerilogModule, FileTypes::SystemVerilogPackage];
    for group in [&software[..], &hardware[..]] {
        let longest = group.iter().map(|kind| kind.label().len()).max().unwrap();
        for kind in group {
            assert_eq!(column_of(*kind), longest + 1);
        }
    }
    assert_eq!(column_of(FileTypes::C), 7);
    assert_eq!(column_of(FileTypes::SystemVerilogModule), 24);
}
