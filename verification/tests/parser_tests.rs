use hack_vm_translator::error::HackError;
use hack_vm_translator::foo;
use hack_vm_translator::parser::{
    Arithmetic, Constant, Instruction, Parser, StackManipulation, Symbol,
};

#[test]
fn it_works() {
    let result: u64 = foo(2, 2);
    assert_eq!(result, 4);
}

#[test]
fn symbol_round_trips_unchanged() {
    let texts = ["loop", "a$b.c:d_e", "THIS", "x1", "$start", "_", "a0123456789"];
    for text in texts {
        let symbol = Symbol::from_str(text).unwrap();
        assert_eq!(symbol.literal_representation(), text);
    }
}

#[test]
fn symbol_rejects_forbidden_text() {
    let bad = ["", "1abc", "9", "a b", "hy-phen", "na\u{ef}ve", "semi;colon"];
    for text in bad {
        assert_eq!(
            Symbol::from_str(text),
            Err(HackError::SymbolHasForbiddenCharacter),
            "{text:?} should be rejected"
        );
    }
}

#[test]
fn constant_accepts_the_whole_range() {
    for n in [0u16, 1, 9, 10, 17, 255, 32766, 32767] {
        let constant = Constant::from_u16(n).unwrap();
        assert_eq!(constant.literal_representation(), n);
        assert_eq!(constant.text(), format!("{n}"));
    }
}

#[test]
fn constant_rejects_larger_values_with_overflow() {
    for n in [32768u16, 40000, 65535] {
        assert_eq!(Constant::from_u16(n), Err(HackError::Overflow));
    }
}

#[test]
fn constant_parses_decimal_text() {
    assert_eq!(Constant::from_str("17").unwrap().literal_representation(), 17);
    assert_eq!(Constant::from_str("0").unwrap().literal_representation(), 0);
    assert_eq!(Constant::from_str("0017").unwrap().literal_representation(), 17);
    assert_eq!(Constant::from_str("32767").unwrap().literal_representation(), 32767);
    assert_eq!(Constant::from_str("32768"), Err(HackError::Overflow));
    assert_eq!(Constant::from_str("99999"), Err(HackError::Overflow));
    assert_eq!(
        Constant::from_str("000000000000000000032767")
            .unwrap()
            .literal_representation(),
        32767
    );
    assert!(matches!(Constant::from_str(""), Err(HackError::FromStrError(_))));
    assert!(matches!(Constant::from_str("abc"), Err(HackError::FromStrError(_))));
    assert!(matches!(Constant::from_str("+5"), Err(HackError::FromStrError(_))));
    assert!(matches!(Constant::from_str("-5"), Err(HackError::FromStrError(_))));
    assert!(matches!(Constant::from_str("1 7"), Err(HackError::FromStrError(_))));
}

fn push(segment: &str, index: u16) -> Instruction {
    Instruction::StackManipulation(StackManipulation::Push {
        symbol: Symbol::from_str(segment).unwrap(),
        value: Constant::from_u16(index).unwrap(),
    })
}

fn pop(segment: &str, index: u16) -> Instruction {
    Instruction::StackManipulation(StackManipulation::Pop {
        symbol: Symbol::from_str(segment).unwrap(),
        value: Constant::from_u16(index).unwrap(),
    })
}

#[test]
fn parses_push_constant_17() {
    let parsed = Parser::new("push constant 17".to_string()).parse().unwrap();
    assert_eq!(parsed, vec![push("constant", 17)]);
}

#[test]
fn parses_pop_local_2() {
    let parsed = Parser::new("pop local 2".to_string()).parse().unwrap();
    assert_eq!(parsed, vec![pop("local", 2)]);
}

#[test]
fn parses_add() {
    let parsed = Parser::new("add".to_string()).parse().unwrap();
    assert_eq!(parsed, vec![Instruction::Arithmetic(Arithmetic::Add)]);
}

#[test]
fn rejects_banana_as_unrecognized() {
    let result = Parser::new("banana".to_string()).parse();
    assert!(matches!(result, Err(HackError::UnrecognizedInstruction(_))));
}

#[test]
fn rejects_push_constant_99999_with_overflow() {
    let result = Parser::new("push constant 99999".to_string()).parse();
    assert_eq!(result, Err(HackError::Overflow));
}

#[test]
fn parses_every_arithmetic_keyword() {
    let source = "add\nsub\nneg\neq\ngt\nlt\nand\nor\nnot";
    let parsed = Parser::new(source.to_string()).parse().unwrap();
    let expected = vec![
        Instruction::Arithmetic(Arithmetic::Add),
        Instruction::Arithmetic(Arithmetic::Subtract),
        Instruction::Arithmetic(Arithmetic::Negative),
        Instruction::Arithmetic(Arithmetic::Equal),
        Instruction::Arithmetic(Arithmetic::GreaterThan),
        Instruction::Arithmetic(Arithmetic::Lessthan),
        Instruction::Arithmetic(Arithmetic::And),
        Instruction::Arithmetic(Arithmetic::Or),
        Instruction::Arithmetic(Arithmetic::Not),
    ];
    assert_eq!(parsed, expected);
}

#[test]
fn skips_comments_and_blank_lines() {
    let source = "// a header comment\n\n   \n  push constant 1  \n\t// indented comment\nadd\n";
    let parsed = Parser::new(source.to_string()).parse().unwrap();
    assert_eq!(parsed, vec![push("constant", 1), Instruction::Arithmetic(Arithmetic::Add)]);
}

#[test]
fn tokenizes_on_unicode_whitespace() {
    let source = "push\u{2003}constant\u{a0}17";
    let parsed = Parser::new(source.to_string()).parse().unwrap();
    assert_eq!(parsed, vec![push("constant", 17)]);
}

#[test]
fn handles_carriage_return_line_endings() {
    let source = "push constant 1\r\n// comment\r\nadd\r\n";
    let parsed = Parser::new(source.to_string()).parse().unwrap();
    assert_eq!(parsed, vec![push("constant", 1), Instruction::Arithmetic(Arithmetic::Add)]);
}

#[test]
fn keeps_surviving_lines_in_order() {
    let source = "push constant 2\npop this 0\ngoto END\nreturn\nlabel END";
    let parser = Parser::new(source.to_string());
    let lines = parser.lines();
    assert_eq!(lines.len(), 5);
    assert_eq!(lines[0], vec!["push".to_string(), "constant".to_string(), "2".to_string()]);
    assert_eq!(lines[2], vec!["goto".to_string(), "END".to_string()]);
    let parsed = parser.parse().unwrap();
    assert_eq!(parsed.len(), 5);
    assert_eq!(parsed[0], push("constant", 2));
    assert_eq!(parsed[1], pop("this", 0));
}

#[test]
fn parses_branching_and_functional_commands() {
    let source = "label LOOP\ngoto LOOP\nif-goto LOOP\nfunction Sys.init 2\ncall Sys.init 0\nreturn";
    let parsed = Parser::new(source.to_string()).parse().unwrap();
    assert_eq!(parsed.len(), 6);
    let rendered: Vec<&str> = parsed
        .iter()
        .map(|instruction| match instruction {
            Instruction::Branching(b) => b.name(),
            Instruction::Functional(f) => f.name(),
            _ => panic!("unexpected family"),
        })
        .collect();
    assert_eq!(rendered, vec!["label", "goto", "if-goto", "function", "call", "return"]);
}

#[test]
fn rejects_wrong_token_counts_as_illegal() {
    let result = Parser::new("push constant 1 extra".to_string()).parse();
    assert!(matches!(result, Err(HackError::IllegalInstruction(_))));
}

#[test]
fn rejects_bad_two_token_command() {
    let result = Parser::new("jump LOOP".to_string()).parse();
    assert!(matches!(result, Err(HackError::FromStrError(_))));
}

#[test]
fn rejects_bad_symbol_in_two_token_line() {
    let result = Parser::new("goto 1LOOP".to_string()).parse();
    assert_eq!(result, Err(HackError::SymbolHasForbiddenCharacter));
}

#[test]
fn rejects_bad_three_token_command() {
    let result = Parser::new("shove constant 3".to_string()).parse();
    assert!(matches!(result, Err(HackError::UnrecognizedInstruction(_))));
}

#[test]
fn rejects_bad_symbol_in_three_token_line() {
    let result = Parser::new("push consta;nt 3".to_string()).parse();
    assert_eq!(result, Err(HackError::SymbolHasForbiddenCharacter));
}

#[test]
fn rejects_bad_constant_in_three_token_line() {
    let result = Parser::new("push constant x3".to_string()).parse();
    assert!(matches!(result, Err(HackError::FromStrError(_))));
}

#[test]
fn surfaces_both_causes_when_symbol_and_constant_fail() {
    let result = Parser::new("push 1bad wow".to_string()).parse();
    match result {
        Err(HackError::UnrecognizedInstruction(message)) => {
            assert!(message.contains("symbols"));
            assert!(message.contains("invalid constant"));
        }
        other => panic!("expected an unrecognized-instruction error, got {other:?}"),
    }
}

#[test]
fn stops_at_the_first_bad_line() {
    let result = Parser::new("add\nbanana\npush constant 99999".to_string()).parse();
    assert!(matches!(result, Err(HackError::UnrecognizedInstruction(_))));
}

#[test]
fn arithmetic_identify_names_commands_and_operators() {
    assert_eq!(Arithmetic::Add.identify(), ["add", "+"]);
    assert_eq!(Arithmetic::Subtract.identify(), ["sub", "-"]);
    assert_eq!(Arithmetic::Negative.identify(), ["neg", "-"]);
    assert_eq!(Arithmetic::Equal.identify(), ["eq", "JEQ"]);
    assert_eq!(Arithmetic::GreaterThan.identify(), ["gt", "JGT"]);
    assert_eq!(Arithmetic::Lessthan.identify(), ["lt", "JLT"]);
    assert_eq!(Arithmetic::And.identify(), ["and", "&"]);
    assert_eq!(Arithmetic::Or.identify(), ["or", "|"]);
    assert_eq!(Arithmetic::Not.identify(), ["not", "!"]);
}

#[test]
fn stack_manipulation_names() {
    let push_instruction = StackManipulation::Push {
        symbol: Symbol::from_str("temp").unwrap(),
        value: Constant::from_u16(3).unwrap(),
    };
    let pop_instruction = StackManipulation::Pop {
        symbol: Symbol::from_str("temp").unwrap(),
        value: Constant::from_u16(3).unwrap(),
    };
    assert_eq!(push_instruction.name(), "push");
    assert_eq!(pop_instruction.name(), "pop");
}
