use hack_vm_translator::config::Config;
use hack_vm_translator::error::HackError;
use hack_vm_translator::parser::{Arithmetic, Constant, Parser, Symbol};
use hack_vm_translator::translator::{Segment, Translator};

fn constant(n: u16) -> Constant {
    Constant::from_u16(n).unwrap()
}

#[test]
fn add_yields_five_lines_and_no_label() {
    for line_number in [0usize, 1, 7, 99, 12345] {
        let lines = Translator::arithmetic(Arithmetic::Add, line_number);
        assert_eq!(lines.len(), 5);
        for line in &lines {
            assert!(!line.starts_with('('), "{line} defines a label");
        }
        assert_eq!(lines, vec!["@SP", "AM=M-1", "D=M", "A=A-1", "M=D+M"]);
    }
}

#[test]
fn subtract_and_bitwise_combine_lines() {
    assert_eq!(Translator::arithmetic(Arithmetic::Subtract, 0)[4], "M=M-D");
    assert_eq!(Translator::arithmetic(Arithmetic::And, 0)[4], "M=D&M");
    assert_eq!(Translator::arithmetic(Arithmetic::Or, 0)[4], "M=D|M");
}

#[test]
fn unary_operations_are_three_lines() {
    assert_eq!(Translator::arithmetic(Arithmetic::Negative, 4), vec!["@SP", "A=M-1", "M=-M"]);
    assert_eq!(Translator::arithmetic(Arithmetic::Not, 4), vec!["@SP", "A=M-1", "M=!M"]);
}

#[test]
fn equal_emits_labels_with_the_line_index() {
    let lines = Translator::arithmetic(Arithmetic::Equal, 7);
    assert_eq!(lines.len(), 17);
    assert_eq!(
        lines,
        vec![
            "@SP", "AM=M-1", "D=M", "A=A-1", "D=M-D", "@CRASH_7", "D;JEQ", "@SP", "A=M-1", "M=0",
            "@BURN_7", "0;JMP", "(CRASH_7)", "@SP", "A=M-1", "M=-1", "(BURN_7)",
        ]
    );
}

#[test]
fn comparisons_use_their_own_jumps() {
    assert_eq!(Translator::arithmetic(Arithmetic::GreaterThan, 2)[6], "D;JGT");
    assert_eq!(Translator::arithmetic(Arithmetic::Lessthan, 2)[6], "D;JLT");
    assert_eq!(Translator::arithmetic(Arithmetic::Equal, 2)[6], "D;JEQ");
}

#[test]
fn distinct_line_indices_give_disjoint_labels() {
    let first = Translator::arithmetic(Arithmetic::Equal, 3);
    let second = Translator::arithmetic(Arithmetic::Equal, 31);
    let labels = |lines: &Vec<String>| -> Vec<String> {
        lines
            .iter()
            .filter(|line| line.starts_with('('))
            .cloned()
            .collect()
    };
    let first_labels = labels(&first);
    let second_labels = labels(&second);
    assert_eq!(first_labels, vec!["(CRASH_3)", "(BURN_3)"]);
    assert_eq!(second_labels, vec!["(CRASH_31)", "(BURN_31)"]);
    for label in &first_labels {
        assert!(!second_labels.contains(label));
    }
}

#[test]
fn push_constant_loads_the_literal() {
    let lines = Translator::push(&Segment::Constant, constant(17), "Foo").unwrap();
    assert_eq!(lines, vec!["@17", "D=A", "@SP", "A=M", "M=D", "@SP", "M=M+1"]);
}

#[test]
fn push_base_pointer_segments_load_indirectly() {
    let lines = Translator::push(&Segment::Local, constant(2), "Foo").unwrap();
    assert_eq!(lines, vec!["@2", "D=A", "@LCL", "A=D+M", "D=M", "@SP", "A=M", "M=D", "@SP", "M=M+1"]);
    let lines = Translator::push(&Segment::Argument, constant(0), "Foo").unwrap();
    assert_eq!(lines[2], "@ARG");
    let lines = Translator::push(&Segment::This, constant(0), "Foo").unwrap();
    assert_eq!(lines[2], "@THIS");
    let lines = Translator::push(&Segment::That, constant(0), "Foo").unwrap();
    assert_eq!(lines[2], "@THAT");
}

#[test]
fn push_static_names_the_file_slot() {
    let lines = Translator::push(&Segment::Static, constant(5), "Foo").unwrap();
    assert_eq!(lines[0], "@Foo.5");
    assert_eq!(lines[1], "D=M");
}

#[test]
fn push_temp_7_references_address_12() {
    let lines = Translator::push(&Segment::Temp, constant(7), "Foo").unwrap();
    assert_eq!(lines[0], "@12");
    assert_eq!(lines, vec!["@12", "D=M", "@SP", "A=M", "M=D", "@SP", "M=M+1"]);
}

#[test]
fn push_temp_8_fails() {
    let result = Translator::push(&Segment::Temp, constant(8), "Foo");
    assert!(matches!(result, Err(HackError::IllegalInstruction(_))));
}

#[test]
fn push_pointer_addresses_this_and_that() {
    let lines = Translator::push(&Segment::Pointer, constant(0), "Foo").unwrap();
    assert_eq!(lines[0], "@THIS");
    let lines = Translator::push(&Segment::Pointer, constant(1), "Foo").unwrap();
    assert_eq!(lines[0], "@THAT");
    let result = Translator::push(&Segment::Pointer, constant(2), "Foo");
    assert!(matches!(result, Err(HackError::IllegalInstruction(_))));
}

#[test]
fn pop_constant_always_fails() {
    for index in [0u16, 1, 7, 100, 32767] {
        let result = Translator::pop(&Segment::Constant, constant(index), "Foo");
        assert!(matches!(result, Err(HackError::IllegalInstruction(_))));
    }
}

#[test]
fn pop_base_pointer_segment_stages_the_address() {
    let lines = Translator::pop(&Segment::Argument, constant(3), "Foo").unwrap();
    assert_eq!(
        lines,
        vec!["@3", "D=A", "@ARG", "D=D+M", "@R13", "M=D", "@SP", "AM=M-1", "D=M", "@R13", "A=M", "M=D"]
    );
}

#[test]
fn pop_static_and_temp_and_pointer() {
    let lines = Translator::pop(&Segment::Static, constant(2), "Bar").unwrap();
    assert_eq!(lines[0], "@Bar.2");
    assert_eq!(lines[1], "D=A");
    let lines = Translator::pop(&Segment::Temp, constant(0), "Bar").unwrap();
    assert_eq!(lines[0], "@5");
    let result = Translator::pop(&Segment::Temp, constant(8), "Bar");
    assert!(matches!(result, Err(HackError::IllegalInstruction(_))));
    let lines = Translator::pop(&Segment::Pointer, constant(1), "Bar").unwrap();
    assert_eq!(lines[0], "@THAT");
    assert_eq!(lines[1], "D=A");
    let result = Translator::pop(&Segment::Pointer, constant(5), "Bar");
    assert!(matches!(result, Err(HackError::IllegalInstruction(_))));
}

#[test]
fn scratch_register_helpers_reject_other_registers() {
    assert_eq!(
        Translator::save_data_register_in_general(13).unwrap(),
        vec!["@R13", "M=D"]
    );
    assert_eq!(
        Translator::pop_to_general(15).unwrap(),
        vec!["@SP", "AM=M-1", "D=M", "@R15", "A=M", "M=D"]
    );
    assert_eq!(Translator::save_data_register_in_general(12), Err(HackError::Internal));
    assert_eq!(Translator::pop_to_general(16), Err(HackError::Internal));
}

#[test]
fn segment_classification_and_bases() {
    let segment = Segment::try_from(&Symbol::from_str("local").unwrap()).unwrap();
    assert_eq!(segment, Segment::Local);
    assert_eq!(segment.base().unwrap(), "LCL");
    assert_eq!(Segment::Argument.base().unwrap(), "ARG");
    assert_eq!(Segment::This.base().unwrap(), "THIS");
    assert_eq!(Segment::That.base().unwrap(), "THAT");
    assert_eq!(Segment::Constant.base(), Err(HackError::Internal));
    assert_eq!(Segment::Temp.base(), Err(HackError::Internal));
    let result = Segment::try_from(&Symbol::from_str("bogus").unwrap());
    assert!(matches!(result, Err(HackError::FromStrError(_))));
}

#[test]
fn translate_dispatches_per_family() {
    let program = Parser::new("push constant 17\npop temp 3\nadd".to_string())
        .parse()
        .unwrap();
    let mut output: Vec<String> = Vec::new();
    for (line_number, instruction) in program.iter().enumerate() {
        let lines = Translator::translate(line_number, instruction, "Foo").unwrap();
        output.extend(lines);
    }
    assert_eq!(
        output,
        vec![
            "@17", "D=A", "@SP", "A=M", "M=D", "@SP", "M=M+1", "@8", "D=A", "@R13", "M=D", "@SP",
            "AM=M-1", "D=M", "@R13", "A=M", "M=D", "@SP", "AM=M-1", "D=M", "A=A-1", "M=D+M",
        ]
    );
}

#[test]
fn translate_rejects_unknown_segment() {
    let program = Parser::new("push nowhere 1".to_string()).parse().unwrap();
    let result = Translator::translate(0, &program[0], "Foo");
    assert!(matches!(result, Err(HackError::FromStrError(_))));
}

#[test]
fn translating_twice_is_byte_identical() {
    let program = Parser::new("push static 4\neq\npop that 6".to_string())
        .parse()
        .unwrap();
    for (line_number, instruction) in program.iter().enumerate() {
        let first = Translator::translate(line_number, instruction, "Foo").unwrap();
        let second = Translator::translate(line_number, instruction, "Foo").unwrap();
        assert_eq!(first, second);
    }
}

#[test]
fn config_wants_exactly_one_argument() {
    let result = Config::build(vec!["prog".to_string()]);
    assert_eq!(result.unwrap_err(), HackError::Misconfiguration(0));
    let result = Config::build(Vec::new());
    assert_eq!(result.unwrap_err(), HackError::Misconfiguration(0));
    let config = Config::build(vec!["prog".to_string(), "Foo.vm".to_string()]).unwrap();
    assert_eq!(config.file_path(), "Foo.vm");
    let result = Config::build(vec![
        "prog".to_string(),
        "a".to_string(),
        "b".to_string(),
        "c".to_string(),
    ]);
    assert_eq!(result.unwrap_err(), HackError::Misconfiguration(3));
}

#[test]
fn error_messages_render() {
    assert!(HackError::Overflow.message().contains("32767"));
    assert_eq!(
        HackError::Misconfiguration(3).message(),
        "expected 1 argument (file.asm), found 3 arguments"
    );
    assert!(HackError::SymbolHasForbiddenCharacter.message().contains("digit"));
    assert_eq!(
        HackError::UnrecognizedInstruction("banana".to_string()).message(),
        "could not determine instruction type for \"banana\""
    );
    assert_eq!(HackError::WriteError("boom".to_string()).message(), "boom");
    assert_eq!(HackError::CannotReadFileFromPath("gone".to_string()).message(), "gone");
    assert_eq!(HackError::FromStrError("why".to_string()).message(), "why");
    assert_eq!(HackError::IllegalInstruction("how".to_string()).message(), "how");
    assert!(HackError::Internal.message().contains("internal"));
    assert!(HackError::BadFileTypeError.message().contains(".asm"));
    assert!(HackError::FileExistsError { certain: true }.message().contains("refuses"));
    assert!(HackError::FileExistsError { certain: false }.message().contains("uncertainty"));
}
