use ledger_wallet::cli::command_traits::{Command, CommandParam};
use ledger_wallet::cli::error::Error;
use ledger_wallet::cli::{char_is_whitespace, same_text, split_words, strip_dashes, Cli, Instruction};
use ledger_wallet::wallet::commands::{
    CreateTx, GetBalance, GetNewAddress, ListUnspent, SendTx, ShowPending, SignTx,
};

fn parse(line: &str) -> Option<Instruction> {
    Cli::parse_instruction(String::from(line)).unwrap()
}

fn list(words: &[&str]) -> Vec<String> {
    words.iter().map(|word| String::from(*word)).collect()
}

#[test]
fn empty_instruction() {
    let instruction = Instruction::new();
    assert_eq!(instruction.get_command(), "");
    assert!(instruction.get_arguments().is_empty());
    assert!(instruction.get_flags().is_empty());
}

#[test]
fn line_without_words_is_no_instruction() {
    assert_eq!(parse(""), None);
    assert_eq!(parse("   "), None);
    assert_eq!(parse("\n"), None);
    assert_eq!(parse(" \t\r\n\u{a0}\u{3000} "), None);
}

#[test]
fn first_word_is_the_command() {
    let instruction = parse("showpending\n").unwrap();
    assert_eq!(instruction.get_command(), "showpending");
    assert!(instruction.get_arguments().is_empty());
    assert!(instruction.get_flags().is_empty());
    // also where it begins with a dash
    let instruction = parse("  -x y").unwrap();
    assert_eq!(instruction.get_command(), "-x");
    assert_eq!(instruction.get_arguments(), &list(&["y"]));
}

#[test]
fn other_words_are_flags_and_arguments_in_order() {
    let instruction = parse("createtx 1.5 -h addr --help 2 other\n").unwrap();
    assert_eq!(instruction.get_command(), "createtx");
    assert_eq!(instruction.get_arguments(), &list(&["1.5", "addr", "2", "other"]));
    assert_eq!(instruction.get_flags(), &list(&["h", "help"]));
}

#[test]
fn flags_lose_every_dash() {
    let instruction = parse("c -a-b - -- a-b").unwrap();
    assert_eq!(instruction.get_flags(), &list(&["ab", "", ""]));
    assert_eq!(instruction.get_arguments(), &list(&["a-b"]));
}

#[test]
fn flag_with_more_than_two_dashes_is_refused() {
    assert_eq!(
        Cli::parse_instruction(String::from("c ---x")),
        Err(Error::UnvalidFlagError(String::from("---x")))
    );
    assert_eq!(
        Cli::parse_instruction(String::from("c a -b -c-d-e ---f")),
        Err(Error::UnvalidFlagError(String::from("-c-d-e")))
    );
    // dashes count in flags only
    assert!(Cli::parse_instruction(String::from("c a---b")).is_ok());
    assert!(Cli::parse_instruction(String::from("---c")).is_ok());
}

#[test]
fn placing_words_adds_to_what_the_instruction_holds() {
    let mut instruction = parse("c one -f").unwrap();
    let more = list(&["skipped", "two", "--g", "three"]);
    assert_eq!(Cli::parse_flags_args(&mut instruction, &more, 1), Ok(()));
    assert_eq!(instruction.get_command(), "c");
    assert_eq!(instruction.get_arguments(), &list(&["one", "two", "three"]));
    assert_eq!(instruction.get_flags(), &list(&["f", "g"]));
    assert_eq!(Cli::parse_flags_args(&mut instruction, &more, 4), Ok(()));
    assert_eq!(Cli::parse_flags_args(&mut instruction, &more, 9), Ok(()));
    assert_eq!(instruction.get_arguments(), &list(&["one", "two", "three"]));
}

#[test]
fn placing_stops_at_the_bad_flag() {
    let mut instruction = Instruction::new();
    let given = list(&["a", "-b", "---c", "d", "----e"]);
    assert_eq!(
        Cli::parse_flags_args(&mut instruction, &given, 0),
        Err(Error::UnvalidFlagError(String::from("---c")))
    );
    assert_eq!(instruction.get_arguments(), &list(&["a"]));
    assert_eq!(instruction.get_flags(), &list(&["b"]));
}

#[test]
fn words_are_split_at_unicode_whitespace() {
    assert_eq!(split_words("a b"), list(&["a", "b"]));
    assert_eq!(split_words("  a\tb\nc\r\nd  "), list(&["a", "b", "c", "d"]));
    assert_eq!(split_words("a\u{a0}b\u{2003}c\u{3000}d\u{85}e"), list(&["a", "b", "c", "d", "e"]));
    assert_eq!(split_words("a\u{200b}b"), list(&["a\u{200b}b"]));
    assert_eq!(split_words("héllo wörld"), list(&["héllo", "wörld"]));
    assert_eq!(split_words(""), Vec::<String>::new());
    let line = " one\u{1680}two\u{2028}three\u{2029}four\u{202f}five\u{205f}six\u{b}seven\u{c}8 ";
    let expected: Vec<String> = line.split_whitespace().map(String::from).collect();
    assert_eq!(split_words(line), expected);
}

#[test]
fn whitespace_is_what_the_standard_library_says() {
    for code in 0u32..=0x10ffff {
        if let Some(c) = char::from_u32(code) {
            assert_eq!(char_is_whitespace(c), c.is_whitespace());
        }
    }
    assert!(char_is_whitespace(' '));
    assert!(char_is_whitespace('\u{3000}'));
    assert!(!char_is_whitespace('\u{200b}'));
    assert!(!char_is_whitespace('\u{feff}'));
}

#[test]
fn dashes_are_counted_and_removed() {
    assert_eq!(strip_dashes("--help"), (2, String::from("help")));
    assert_eq!(strip_dashes("-a-b-"), (3, String::from("ab")));
    assert_eq!(strip_dashes("abc"), (0, String::from("abc")));
    assert_eq!(strip_dashes(""), (0, String::new()));
    assert_eq!(strip_dashes("---"), (3, String::new()));
}

#[test]
fn texts_are_compared_by_their_characters() {
    assert!(same_text("exit", "exit"));
    assert!(!same_text("exit", "exit "));
    assert!(!same_text("Exit", "exit"));
    assert!(same_text("", ""));
}

#[test]
fn prompt_is_the_name_and_an_angle() {
    assert_eq!(Cli::new(String::from("wallet")).prompt(), "wallet> ");
    assert_eq!(Cli::new(String::new()).prompt(), "> ");
}

#[test]
fn instruction_from_a_line_that_was_read() {
    let mut cli = Cli::new(String::from("wallet"));
    let instruction = cli.get_instruction(String::from("signtx 0\n")).unwrap().unwrap();
    assert_eq!(instruction.get_command(), "signtx");
    assert_eq!(instruction.get_arguments(), &list(&["0"]));
    assert_eq!(cli.get_instruction(String::from("\n")), Ok(None));
    assert_eq!(
        cli.get_instruction(String::from("x ---y\n")),
        Err(Error::UnvalidFlagError(String::from("---y")))
    );
    cli.add_command_to_history(&String::from("exit\n"));
    assert_eq!(cli.prompt(), "wallet> ");
}

#[test]
fn messages_of_the_line_errors() {
    assert_eq!(Error::IoError(String::from("closed")).message(), "closed");
    assert_eq!(Error::ParseFloatError(String::from("no number")).message(), "no number");
    assert_eq!(
        Error::UnvalidFlagError(String::from("---x")).message(),
        "Flag not recognized: ---x\n"
    );
    assert_eq!(Error::NoCommandError.message(), "\n");
}

#[test]
fn what_each_command_takes() {
    assert_eq!(GetNewAddress::COMMAND, Command::GETNEWADDRESS);
    assert_eq!(GetBalance::COMMAND, Command::GETBALANCE);
    assert_eq!(CreateTx::COMMAND, Command::CREATETX);
    assert_eq!(SignTx::COMMAND, Command::SIGNTX);
    assert_eq!(SendTx::COMMAND, Command::SENDTX);
    assert_eq!(ShowPending::COMMAND, Command::SHOWPENDING);
    assert_eq!(ListUnspent::COMMAND, Command::LISTUNSPENT);
    assert_eq!((GetNewAddress::MIN_ARG_LENGTH, GetNewAddress::max_arg_length()), (0, Some(0)));
    assert_eq!((GetBalance::MIN_ARG_LENGTH, GetBalance::max_arg_length()), (0, Some(0)));
    assert_eq!((CreateTx::MIN_ARG_LENGTH, CreateTx::max_arg_length()), (2, None));
    assert_eq!((SignTx::MIN_ARG_LENGTH, SignTx::max_arg_length()), (0, Some(1)));
    assert_eq!((SendTx::MIN_ARG_LENGTH, SendTx::max_arg_length()), (0, Some(0)));
    assert_eq!((ShowPending::MIN_ARG_LENGTH, ShowPending::max_arg_length()), (0, Some(0)));
    assert_eq!((ListUnspent::MIN_ARG_LENGTH, ListUnspent::max_arg_length()), (0, Some(0)));
    assert_eq!(GetNewAddress::valid_flags(), vec!["h", "help"]);
    assert_eq!(CreateTx::valid_flags(), vec!["h", "help"]);
    assert_eq!(ListUnspent::valid_flags(), vec!["h", "help"]);
}
