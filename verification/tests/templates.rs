use tf::filetype::FileTypes;
use tf::template::{
    create_bash_file, create_c_file, create_cpp_file, create_h_file, create_hpp_file,
    create_py_file, create_sv_file, create_svh_file, h_file_with_guard, render,
    svh_file_with_guard, Info,
};

fn info(file: &str) -> Info {
    Info {
        date: String::from("01/02/2024"),
        author: String::from("ada"),
        file: String::from(file),
    }
}

#[test]
fn c_file_is_rendered_byte_for_byte() {
    let text = render(FileTypes::C, &info("demo.c"));
    assert_eq!(
        text,
        "////////////////////////////////////////////////////////////////////////\n// Author  : ada\n// File    : demo.c\n// Date    : 01/02/2024\n// Purpose : TODO\n////////////////////////////////////////////////////////////////////////\n\n#include <stdio.h>\n\nint main(int argc, char *argv[]) {\n  printf(\"Hello, World!\\n\");\n  return 0;\n}\n\n"
    );
}

#[test]
fn h_file_is_rendered_byte_for_byte() {
    let text = render(FileTypes::H, &info("foo.h"));
    assert_eq!(
        text,
        "////////////////////////////////////////////////////////////////////////\n// Author  : ada\n// File    : foo.h\n// Date    : 01/02/2024\n// Purpose : TODO\n////////////////////////////////////////////////////////////////////////\n\n#ifndef FOO_H\n#define FOO_H\n\n// STRUCTS\n\n// FUNCTIONS\n\n////////////////////////////////////////////////////////////////////////\n#endif\n"
    );
}

#[test]
fn py_file_is_rendered_byte_for_byte() {
    let text = render(FileTypes::Python, &info("tool.py"));
    assert_eq!(
        text,
        "\"\"\"\nAuthor  : ada\nFile    : tool.py\nDate    : 01/02/2024\nPurpose : TODO\n\"\"\"\n\n\ndef main() -> int:\n    return 0\n\n\nif __name__ == \"__main__\":\n    main()"
    );
}

#[test]
fn cpp_file_is_rendered_byte_for_byte() {
    let text = render(FileTypes::CPP, &info("demo.cpp"));
    assert_eq!(
        text,
        "////////////////////////////////////////////////////////////////////////\n// Author  : ada\n// File    : demo.cpp\n// Date    : 01/02/2024\n// Purpose : TODO\n////////////////////////////////////////////////////////////////////////\n\n#include <iostream>\n\nint main(int argc, char *argv[]) {\n  std::cout << \"Hello, World!\" << std::endl;\n  return 0;\n}\n\n"
    );
}

#[test]
fn hpp_file_is_rendered_byte_for_byte() {
    let text = render(FileTypes::HPP, &info("demo.hpp"));
    assert_eq!(
        text,
        "////////////////////////////////////////////////////////////////////////\n// Author  : ada\n// File    : demo.hpp\n// Date    : 01/02/2024\n// Purpose : TODO\n////////////////////////////////////////////////////////////////////////\n\n#pragma once\n\n// STRUCTS\n\n// FUNCTIONS\n\n////////////////////////////////////////////////////////////////////////\n"
    );
}

#[test]
fn bash_file_is_rendered_byte_for_byte() {
    let text = render(FileTypes::Bash, &info("demo.bash"));
    assert_eq!(
        text,
        "#!/bin/bash\n########################################################################\n# Author  : ada\n# File    : demo.bash\n# Date    : 01/02/2024\n# Purpose : TODO\n########################################################################\nset -e # exit immediately on error\nset -u # treat unbound variables as errors\nset -x # enable tracing\n\necho \"Hello, World!\"\n"
    );
}

#[test]
fn sv_file_is_rendered_byte_for_byte() {
    let text = render(FileTypes::SystemVerilogModule, &info("Alu.sv"));
    assert_eq!(
        text,
        "////////////////////////////////////////////////////////////////////////\n// Author  : ada\n// File    : Alu.sv\n// Date    : 01/02/2024\n// Purpose : TODO\n////////////////////////////////////////////////////////////////////////\n\n`default_nettype none\n\nmodule Alu (\n  input logic clk,\n  input logic rst\n  );\n\n  // TODO - Implementation\n\nendmodule\n\n`default_nettype wire\n\n"
    );
}

#[test]
fn svh_file_is_rendered_byte_for_byte() {
    let text = render(FileTypes::SystemVerilogPackage, &info("bus_pkg.svh"));
    assert_eq!(
        text,
        "////////////////////////////////////////////////////////////////////////\n// Author  : ada\n// File    : bus_pkg.svh\n// Date    : 01/02/2024\n// Purpose : TODO\n////////////////////////////////////////////////////////////////////////\n\n`ifndef BUS_PKG\n`define BUS_PKG\n\npackage bus_pkg;\n\n  // TODO - Implementation\n\nendpackage: bus_pkg\n\n`endif\n\n"
    );
}

#[test]
fn render_dispatches_to_the_renderer_of_each_file_type() {
    assert_eq!(render(FileTypes::C, &info("a.c")), create_c_file(&info("a.c")));
    assert_eq!(render(FileTypes::H, &info("a.h")), create_h_file(&info("a.h")));
    assert_eq!(render(FileTypes::Python, &info("a.py")), create_py_file(&info("a.py")));
    assert_eq!(render(FileTypes::CPP, &info("a.cpp")), create_cpp_file(&info("a.cpp")));
    assert_eq!(render(FileTypes::HPP, &info("a.hpp")), create_hpp_file(&info("a.hpp")));
    assert_eq!(render(FileTypes::Bash, &info("a.bash")), create_bash_file(&info("a.bash")));
    assert_eq!(
        render(FileTypes::SystemVerilogModule, &info("a.sv")),
        create_sv_file(&info("a.sv"))
    );
    assert_eq!(
        render(FileTypes::SystemVerilogPackage, &info("a.svh")),
        create_svh_file(&info("a.svh"))
    );
}

#[test]
fn no_two_file_types_share_a_text() {
    let kinds = [
        FileTypes::C,
        FileTypes::H,
        FileTypes::Python,
        FileTypes::CPP,
        FileTypes::HPP,
        FileTypes::Bash,
        FileTypes::SystemVerilogModule,
        FileTypes::SystemVerilogPackage,
    ];
    for (i, a) in kinds.iter().enumerate() {
        for b in kinds.iter().skip(i + 1) {
            assert_ne!(render(*a, &info("same.x")), render(*b, &info("same.x")));
        }
    }
}

#[test]
fn rendering_twice_gives_the_same_bytes() {
    let kinds = [
        FileTypes::C,
        FileTypes::H,
        FileTypes::Python,
        FileTypes::CPP,
        FileTypes::HPP,
        FileTypes::Bash,
        FileTypes::SystemVerilogModule,
        FileTypes::SystemVerilogPackage,
    ];
    for kind in kinds {
        let first = render(kind, &info("again.file"));
        let second = render(kind, &info("again.file"));
        assert_eq!(first.as_bytes(), second.as_bytes());
    }
}

#[test]
fn header_guard_of_foo_h_is_foo_h_in_upper_case() {
    let text = create_h_file(&info("foo.h"));
    assert!(text.contains("\n#ifndef FOO_H\n#define FOO_H\n"));
    assert!(!text.contains("foo_h"));
}

#[test]
fn header_guard_turns_only_the_last_dot_into_an_underscore() {
    let text = create_h_file(&info("my.lib.h"));
    assert!(text.contains("\n#ifndef MY.LIB_H\n#define MY.LIB_H\n"));
    assert!(text.contains("// File    : my.lib.h\n"));
    let text = create_h_file(&info("a.b.h"));
    assert!(text.contains("\n#ifndef A.B_H\n#define A.B_H\n"));
    assert!(!text.contains("A_B_H"));
}

#[test]
fn header_guard_of_a_file_name_without_a_dot_is_the_name_in_upper_case() {
    let text = create_h_file(&info("plain"));
    assert!(text.contains("\n#ifndef PLAIN\n#define PLAIN\n"));
}

#[test]
fn header_guard_of_a_file_name_that_ends_in_a_dot_ends_in_an_underscore() {
    let text = create_h_file(&info("odd."));
    assert!(text.contains("\n#ifndef ODD_\n#define ODD_\n"));
}

#[test]
fn header_guard_is_not_sanitized() {
    let text = create_h_file(&info("my-file 2.h"));
    assert!(text.contains("\n#ifndef MY-FILE 2_H\n#define MY-FILE 2_H\n"));
}

#[test]
fn header_guard_follows_the_unicode_case_mapping() {
    let text = create_h_file(&info("straße.h"));
    assert!(text.contains("\n#ifndef STRASSE_H\n#define STRASSE_H\n"));
}

#[test]
fn header_with_a_given_guard_holds_that_guard_as_it_is() {
    let text = h_file_with_guard(&info("foo.h"), "any guard");
    assert_eq!(
        text,
        "////////////////////////////////////////////////////////////////////////\n// Author  : ada\n// File    : foo.h\n// Date    : 01/02/2024\n// Purpose : TODO\n////////////////////////////////////////////////////////////////////////\n\n#ifndef any guard\n#define any guard\n\n// STRUCTS\n\n// FUNCTIONS\n\n////////////////////////////////////////////////////////////////////////\n#endif\n"
    );
}

#[test]
fn hpp_file_has_no_guard_token() {
    let text = create_hpp_file(&info("foo.hpp"));
    assert!(text.contains("\n#pragma once\n"));
    assert!(!text.contains("FOO_HPP"));
    assert!(!text.contains("#ifndef"));
}

#[test]
fn module_is_named_by_the_file_name_up_to_its_last_dot() {
    let text = create_sv_file(&info("Mixed_Case.v2.sv"));
    assert!(text.contains("\nmodule Mixed_Case.v2 (\n"));
    assert!(text.contains("// File    : Mixed_Case.v2.sv\n"));
    let text = create_sv_file(&Info {
        date: String::from("01/02/2024"),
        author: String::from("alice"),
        file: String::from("a.b.sv"),
    });
    assert!(text.contains("\nmodule a.b (\n"));
    assert!(!text.contains("\nmodule a (\n"));
}

#[test]
fn module_of_a_file_name_without_a_dot_is_the_whole_name() {
    let text = create_sv_file(&info("plain"));
    assert!(text.contains("\nmodule plain (\n"));
}

#[test]
fn module_of_a_file_name_that_opens_with_a_dot_is_empty() {
    let text = create_sv_file(&info(".sv"));
    assert!(text.contains("\nmodule  (\n"));
}

#[test]
fn package_is_named_by_the_file_name_up_to_its_last_dot() {
    let text = create_svh_file(&info("bus.v2.svh"));
    assert!(text.contains("\n`ifndef BUS.V2\n`define BUS.V2\n\npackage bus.v2;\n"));
    assert!(text.contains("\nendpackage: bus.v2\n"));
}

#[test]
fn package_is_guarded_by_its_name_in_upper_case() {
    let text = create_svh_file(&info("Bus_pkg.svh"));
    assert!(text.contains("\n`ifndef BUS_PKG\n`define BUS_PKG\n\npackage Bus_pkg;\n"));
    assert!(text.contains("\nendpackage: Bus_pkg\n"));
}

#[test]
fn package_with_given_name_and_guard_holds_them_as_they_are() {
    let text = svh_file_with_guard(&info("p.svh"), "pkg", "Guard");
    assert_eq!(
        text,
        "////////////////////////////////////////////////////////////////////////\n// Author  : ada\n// File    : p.svh\n// Date    : 01/02/2024\n// Purpose : TODO\n////////////////////////////////////////////////////////////////////////\n\n`ifndef Guard\n`define Guard\n\npackage pkg;\n\n  // TODO - Implementation\n\nendpackage: pkg\n\n`endif\n\n"
    );
}

#[test]
fn banner_names_author_file_date_and_purpose_in_that_order() {
    let kinds = [
        FileTypes::C,
        FileTypes::H,
        FileTypes::Python,
        FileTypes::CPP,
        FileTypes::HPP,
        FileTypes::Bash,
        FileTypes::SystemVerilogModule,
        FileTypes::SystemVerilogPackage,
    ];
    for kind in kinds {
        let text = render(kind, &info("order.x"));
        let author = text.find("Author  : ada\n").unwrap();
        let file = text.find("File    : order.x\n").unwrap();
        let date = text.find("Date    : 01/02/2024\n").unwrap();
        let purpose = text.find("Purpose : TODO\n").unwrap();
        assert!(author < file && file < date && date < purpose);
    }
}

#[test]
fn banner_takes_its_fields_as_they_are() {
    let odd = Info {
        date: String::from(""),
        author: String::from("Grace Hopper <g@h>"),
        file: String::from("ünï.py"),
    };
    let text = create_py_file(&odd);
    assert!(text.starts_with(
        "\"\"\"\nAuthor  : Grace Hopper <g@h>\nFile    : ünï.py\nDate    : \nPurpose : TODO\n\"\"\"\n"
    ));
}

#[test]
fn shell_script_opens_with_its_shebang() {
    let text = create_bash_file(&info("demo.bash"));
    assert_eq!(text.lines().next(), Some("#!/bin/bash"));
}
