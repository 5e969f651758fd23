use ledger_wallet::app::{check_instruction, is_valid_flag, Action, App, AppError};
use ledger_wallet::block::Block;
use ledger_wallet::cli::command_traits::Command;
use ledger_wallet::cli::{Cli, Instruction};
use ledger_wallet::db::columns;
use ledger_wallet::db::rocks::ColumnName;
use ledger_wallet::db::{column_families, rocks};
use ledger_wallet::wallet::commands::{CreateTx, GetNewAddress, SignTx};
use ledger_wallet::wallet::error::Error;
use ledger_wallet::wallet::arguments::TxArgument;
use ledger_wallet::wallet::Signing;

const ADDRESS: &str = "1BgGZ9tcN4rm9KBzDn7KprQz87SZ26SAMH";

fn instruction(line: &str) -> Instruction {
    Cli::parse_instruction(String::from(line)).unwrap().unwrap()
}

fn choice(app: &App, line: &str) -> Result<Action, AppError> {
    app.parse_command(&instruction(line))
}

fn readings(instruction: &Instruction) -> Vec<TxArgument> {
    instruction
        .get_arguments()
        .iter()
        .map(|word| TxArgument {
            text: word.clone(),
            amount: word.parse::<f32>().map(f32::to_ne_bytes).map_err(|e| e.to_string()),
        })
        .collect()
}

#[test]
fn new_application_has_a_prompt_and_nothing_pending() {
    let app = App::new(String::from("wallet"));
    assert_eq!(app.cli.prompt(), "wallet> ");
    assert!(app.wallet.pending_transactions().is_empty());
}

#[test]
fn names_of_the_commands() {
    let app = App::new(String::from("wallet"));
    assert_eq!(choice(&app, "getnewaddress"), Ok(Action::Run(Command::GETNEWADDRESS)));
    assert_eq!(choice(&app, "getbalance"), Ok(Action::Run(Command::GETBALANCE)));
    assert_eq!(choice(&app, "createtx 1.5 addr"), Ok(Action::Run(Command::CREATETX)));
    assert_eq!(choice(&app, "signtx"), Ok(Action::Run(Command::SIGNTX)));
    assert_eq!(choice(&app, "signtx 0"), Ok(Action::Run(Command::SIGNTX)));
    assert_eq!(choice(&app, "sendtx"), Ok(Action::Run(Command::SENDTX)));
    assert_eq!(choice(&app, "showpending"), Ok(Action::Run(Command::SHOWPENDING)));
    assert_eq!(choice(&app, "listunspent"), Ok(Action::Run(Command::LISTUNSPENT)));
}

#[test]
fn exit_ends_the_application() {
    let app = App::new(String::from("wallet"));
    assert_eq!(choice(&app, "exit"), Ok(Action::Exit));
    assert_eq!(choice(&app, "exit now --please"), Ok(Action::Exit));
}

#[test]
fn other_names_do_nothing() {
    let app = App::new(String::from("wallet"));
    assert_eq!(choice(&app, "help"), Ok(Action::Nothing));
    assert_eq!(choice(&app, "EXIT"), Ok(Action::Nothing));
    assert_eq!(choice(&app, "createtxx 1 2"), Ok(Action::Nothing));
    assert_eq!(choice(&app, "mine --fast 3"), Ok(Action::Nothing));
}

#[test]
fn too_many_arguments_are_refused() {
    let app = App::new(String::from("wallet"));
    let too_many = |command: &str, most: usize| {
        Err(AppError::WalletError(Error::UnvalidArgsCountError(String::from(command), most)))
    };
    assert_eq!(choice(&app, "getnewaddress now"), too_many("getnewaddress", 0));
    assert_eq!(choice(&app, "getbalance a b"), too_many("getbalance", 0));
    assert_eq!(choice(&app, "signtx 0 1"), too_many("signtx", 1));
    assert_eq!(choice(&app, "sendtx 0"), too_many("sendtx", 0));
    assert_eq!(choice(&app, "showpending all"), too_many("showpending", 0));
    assert_eq!(choice(&app, "listunspent x"), too_many("listunspent", 0));
}

#[test]
fn too_few_arguments_are_refused() {
    let app = App::new(String::from("wallet"));
    let too_few =
        Err(AppError::WalletError(Error::NotEnoughArgsError(String::from("2 arguments are required"))));
    assert_eq!(choice(&app, "createtx"), too_few);
    assert_eq!(choice(&app, "createtx 1.5"), too_few);
    assert_eq!(choice(&app, "createtx 1.5 a b"), Ok(Action::Run(Command::CREATETX)));
}

#[test]
fn flags_must_be_known() {
    let app = App::new(String::from("wallet"));
    assert_eq!(choice(&app, "getbalance -h"), Ok(Action::Run(Command::GETBALANCE)));
    assert_eq!(choice(&app, "getbalance --help -h"), Ok(Action::Run(Command::GETBALANCE)));
    assert_eq!(
        choice(&app, "getbalance -h -v --x"),
        Err(AppError::WalletError(Error::UnrecognizedFlag(String::from("v"))))
    );
    assert_eq!(
        choice(&app, "signtx 0 --force"),
        Err(AppError::WalletError(Error::UnrecognizedFlag(String::from("force"))))
    );
    // the number of arguments is examined before the flags
    assert_eq!(
        choice(&app, "signtx 0 1 --force"),
        Err(AppError::WalletError(Error::UnvalidArgsCountError(String::from("signtx"), 1)))
    );
}

#[test]
fn instruction_is_checked_against_a_command() {
    assert_eq!(check_instruction::<GetNewAddress>(&instruction("x")), Ok(()));
    assert_eq!(
        check_instruction::<GetNewAddress>(&instruction("x y")),
        Err(Error::UnvalidArgsCountError(String::from("x"), 0))
    );
    assert_eq!(
        check_instruction::<CreateTx>(&instruction("x y")),
        Err(Error::NotEnoughArgsError(String::from("2 arguments are required")))
    );
    assert_eq!(check_instruction::<CreateTx>(&instruction("x 1 2 3 4 5 6 7")), Ok(()));
    assert_eq!(
        check_instruction::<SignTx>(&instruction("x -q")),
        Err(Error::UnrecognizedFlag(String::from("q")))
    );
    assert_eq!(check_instruction::<SignTx>(&instruction("x --h")), Ok(()));
}

#[test]
fn flag_is_looked_up_in_a_list() {
    let valid = vec!["h", "help"];
    assert!(is_valid_flag("h", &valid));
    assert!(is_valid_flag("help", &valid));
    assert!(!is_valid_flag("he", &valid));
    assert!(!is_valid_flag("", &valid));
    assert!(!is_valid_flag("h", &Vec::new()));
}

#[test]
fn created_transaction_is_listed_as_pending() {
    let mut app = App::new(String::from("wallet"));
    let line = format!("createtx 1.5 {}\n", ADDRESS);
    let created = app.cli.get_instruction(line).unwrap().unwrap();
    assert_eq!(app.parse_command(&created), Ok(Action::Run(Command::CREATETX)));
    assert_eq!(app.wallet.create_tx(&readings(&created)), Ok(()));

    let show = app.cli.get_instruction(String::from("showpending\n")).unwrap().unwrap();
    assert_eq!(app.parse_command(&show), Ok(Action::Run(Command::SHOWPENDING)));
    let pending = app.wallet.pending_transactions();
    assert_eq!(pending.len(), 1);
    assert_eq!(pending[0].vout.len(), 1);
    assert_eq!(f32::from_ne_bytes(pending[0].vout[0].value), 1.5);
    assert_eq!(
        pending[0].vout[0].public_key_hash.to_vec(),
        hex::decode("751e76e8199196d454941c45d1b3a323f1433bd6").unwrap()
    );
    let values: Vec<Vec<String>> = pending
        .iter()
        .map(|tx| tx.vout.iter().map(|out| f32::from_ne_bytes(out.value).to_string()).collect())
        .collect();
    let shown = app.wallet.show_pending_tx(&values).unwrap();
    let expected = "Pending tx: 0\n{\n    vin {\n    }\n    vout {\n        {\n            \
                    Value: 1.5\n            PubKeyHash: 751e76e8199196d454941c45d1b3a323f1433bd6\n        \
                    }\n    }\n}\n\n";
    assert_eq!(shown, expected);
}

#[test]
fn signing_the_created_transaction_succeeds() {
    let mut app = App::new(String::from("wallet"));
    let created = instruction(&format!("createtx 1.5 {}", ADDRESS));
    app.wallet.create_tx(&readings(&created)).unwrap();
    let sign = app.cli.get_instruction(String::from("signtx 0\n")).unwrap().unwrap();
    assert_eq!(app.parse_command(&sign), Ok(Action::Run(Command::SIGNTX)));
    assert_eq!(
        app.wallet.sign_tx(sign.get_arguments()),
        Ok(Signing::Done { index: 0, signed: true })
    );
    assert!(app.wallet.pending_transactions()[0].vin.is_empty());
    assert_eq!(app.wallet.pending_transactions().len(), 1);
}

#[test]
fn failure_of_the_wallet_is_one_of_the_application() {
    let error = AppError::from(Error::UnvalidCheckSumError);
    assert_eq!(error, AppError::WalletError(Error::UnvalidCheckSumError));
    assert_eq!(error.message(), "Unvalid checksum");
    let error = AppError::WalletError(Error::UnrecognizedFlag(String::from("z")));
    assert_eq!(error.message(), "Unrecognized flag: z");
}

#[test]
fn block_to_try_things_with() {
    let block = Block::new();
    assert_eq!(block.get_index(), 1234);
    assert_eq!(*block.get_hash(), [3u8; 32]);
    assert_eq!(block.prev_hash, [4u8; 32]);
    assert!(block.tx.is_empty());
}

#[test]
fn columns_of_the_store() {
    assert_eq!(columns::BLOCK_CF, "block");
    assert_eq!(columns::UTXO_CF, "utxo");
    assert_eq!(<columns::Block as ColumnName>::NAME, "block");
    assert_eq!(<columns::Utxo as ColumnName>::NAME, "utxo");
    assert_eq!(column_families(), vec!["block", "utxo"]);
}

#[test]
fn messages_of_the_store_errors() {
    assert_eq!(rocks::Error::DbError(String::from("locked")).message(), "locked");
    assert_eq!(rocks::Error::BincodeError(String::from("short")).message(), "short");
}
