use vapor_cli::bookmarks::{BookmarkError, BookmarkManager};
use vapor_cli::display::{OutputFormat, QueryOptions};
use vapor_cli::repl::{
    accepts_reconnection, assemble_line, basic_step, carry_out_bookmark_command, get_prompt,
    handle_bookmark_command,
    handle_special_commands, is_complete_lowered, is_critical_error, parse_bookmark_command,
    remember_line, route_command, session_step, BasicStep, BookmarkOutcome, BookmarkRequest,
    BookmarkUsage, MetaAction, MetaNotice, SessionStep,
};
use vapor_cli::transactions::{FailedStep, Intercept, Notice, TransactionManager, TransactionOp};

fn special(command: &str) -> (MetaAction, QueryOptions) {
    let mut options = QueryOptions::default();
    let action = handle_special_commands(command, "SELECT 1", &mut options);
    (action, options)
}

#[test]
fn default_options() {
    let options = QueryOptions::default();
    assert_eq!(options.format, OutputFormat::Table);
    assert_eq!(options.max_rows, Some(1000));
    assert!(options.show_timing);
}

#[test]
fn plain_meta_commands() {
    assert_eq!(special(".help").0, MetaAction::ShowHelp);
    assert_eq!(special(".shell").0, MetaAction::SwitchToShell);
    assert_eq!(special(".exit").0, MetaAction::Exit);
    assert_eq!(special(".quit").0, MetaAction::Exit);
    assert_eq!(special(".tables").0, MetaAction::ListTables);
    assert_eq!(special(".clear").0, MetaAction::ClearScreen);
    assert_eq!(special(".info").0, MetaAction::ShowInfo);
    assert_eq!(special(".status").0, MetaAction::ShowStatus);
    assert_eq!(special("  .bookmark list ").0, MetaAction::Bookmark);
    assert_eq!(special(".schema").0, MetaAction::ShowSchema(None));
    assert_eq!(special(".schema users x").0, MetaAction::ShowSchema(Some("users".to_string())));
    assert!(!MetaAction::Exit.continues());
    assert!(MetaAction::ShowHelp.continues());
    assert!(MetaAction::Done.continues());
}

#[test]
fn format_command_sets_the_format() {
    let (action, options) = special(".format json");
    assert_eq!(action, MetaAction::Done);
    assert_eq!(options.format, OutputFormat::Json);
    assert_eq!(options.max_rows, Some(1000));
    let (action, options) = special(".format csv");
    assert_eq!(action, MetaAction::Done);
    assert_eq!(options.format, OutputFormat::Csv);
    let (action, options) = special(".format table");
    assert_eq!(action, MetaAction::Done);
    assert_eq!(options.format, OutputFormat::Table);
    let (action, options) = special(".format JSON");
    assert_eq!(action, MetaAction::Notify(MetaNotice::InvalidFormat));
    assert_eq!(options.format, OutputFormat::Table);
    let (action, _) = special(".format");
    assert_eq!(action, MetaAction::Notify(MetaNotice::CurrentFormat(OutputFormat::Table)));
    assert_eq!(
        MetaNotice::CurrentFormat(OutputFormat::Csv).lines(),
        vec!["Current format: Csv", "Usage: .format [table|json|csv]"]
    );
    assert_eq!(
        MetaNotice::InvalidFormat.lines(),
        vec!["Invalid format. Available: table, json, csv"]
    );
}

#[test]
fn limit_command_sets_and_lifts_the_limit() {
    let (action, options) = special(".limit 25");
    assert_eq!(action, MetaAction::Notify(MetaNotice::RowLimitSet(25)));
    assert_eq!(options.max_rows, Some(25));
    assert_eq!(MetaNotice::RowLimitSet(25).lines(), vec!["Row limit set to 25"]);
    let (action, options) = special(".limit 0");
    assert_eq!(action, MetaAction::Notify(MetaNotice::RowLimitRemoved));
    assert_eq!(options.max_rows, None);
    let (action, options) = special(".limit +007");
    assert_eq!(action, MetaAction::Notify(MetaNotice::RowLimitSet(7)));
    assert_eq!(options.max_rows, Some(7));
    for bad in [".limit -1", ".limit ten", ".limit 1.5", ".limit +", ".limit 99999999999999999999999"] {
        let (action, options) = special(bad);
        assert_eq!(action, MetaAction::Notify(MetaNotice::InvalidLimit));
        assert_eq!(options.max_rows, Some(1000));
    }
    let (action, _) = special(".limit");
    assert_eq!(action, MetaAction::Notify(MetaNotice::CurrentRowLimit(1000)));
    assert_eq!(MetaNotice::CurrentRowLimit(1000).lines(), vec!["Current row limit: 1000"]);
    let mut unlimited = QueryOptions { format: OutputFormat::Table, max_rows: None, show_timing: true };
    let action = handle_special_commands(".limit", "", &mut unlimited);
    assert_eq!(action, MetaAction::Notify(MetaNotice::NoRowLimit));
    assert_eq!(MetaNotice::NoRowLimit.lines(), vec!["No row limit set"]);
    assert_eq!(MetaNotice::RowLimitRemoved.lines(), vec!["Row limit removed"]);
    assert_eq!(
        MetaNotice::InvalidLimit.lines(),
        vec!["Invalid limit value. Use a positive number or 0 for no limit."]
    );
}

#[test]
fn timing_commands() {
    let (action, options) = special(".notiming");
    assert_eq!(action, MetaAction::Notify(MetaNotice::TimingDisabled));
    assert!(!options.show_timing);
    let mut options = options;
    let action = handle_special_commands(".timing", "", &mut options);
    assert_eq!(action, MetaAction::Notify(MetaNotice::TimingEnabled));
    assert!(options.show_timing);
    assert_eq!(MetaNotice::TimingEnabled.lines(), vec!["Query timing enabled"]);
    assert_eq!(MetaNotice::TimingDisabled.lines(), vec!["Query timing disabled"]);
}

#[test]
fn export_and_import_commands() {
    let mut options = QueryOptions::default();
    assert_eq!(
        handle_special_commands(".export out.csv", "SELECT * FROM t", &mut options),
        MetaAction::Export { query: "SELECT * FROM t".to_string(), filename: "out.csv".to_string() }
    );
    assert_eq!(
        handle_special_commands(".export out.csv", "", &mut options),
        MetaAction::Notify(MetaNotice::NothingToExport)
    );
    assert_eq!(
        handle_special_commands(".export", "SELECT 1", &mut options),
        MetaAction::Notify(MetaNotice::ExportUsage)
    );
    assert_eq!(
        handle_special_commands(".import data.csv people", "", &mut options),
        MetaAction::Import { file: "data.csv".to_string(), table: "people".to_string() }
    );
    assert_eq!(
        handle_special_commands(".import data.csv", "", &mut options),
        MetaAction::Notify(MetaNotice::ImportUsage)
    );
    assert_eq!(
        MetaNotice::NothingToExport.lines(),
        vec!["No SELECT query has been executed yet."]
    );
    assert_eq!(MetaNotice::ExportUsage.lines(), vec!["Usage: .export FILENAME"]);
    assert_eq!(MetaNotice::ImportUsage.lines(), vec!["Usage: .import CSV_FILENAME TABLE_NAME"]);
}

#[test]
fn unknown_meta_command_is_a_notice() {
    let (action, options) = special("  .frobnicate now  ");
    assert_eq!(
        action,
        MetaAction::Notify(MetaNotice::UnknownCommand(".frobnicate now".to_string()))
    );
    assert_eq!(options.max_rows, Some(1000));
    assert!(action.continues());
    assert_eq!(
        MetaNotice::UnknownCommand(".frobnicate now".to_string()).lines(),
        vec!["Unknown command: '.frobnicate now'. Type '.help' for a list of commands."]
    );
    assert_eq!(special("").0, MetaAction::Notify(MetaNotice::UnknownCommand("".to_string())));
    assert_eq!(special(".HELP").0, MetaAction::Notify(MetaNotice::UnknownCommand(".HELP".to_string())));
}

#[test]
fn bookmark_commands_are_parsed() {
    assert_eq!(parse_bookmark_command(".bookmark"), BookmarkRequest::Usage(BookmarkUsage::General));
    assert_eq!(
        parse_bookmark_command(".bookmark save"),
        BookmarkRequest::Usage(BookmarkUsage::Save)
    );
    assert_eq!(
        parse_bookmark_command(".bookmark save top"),
        BookmarkRequest::Save { name: "top".to_string(), description: None }
    );
    assert_eq!(
        parse_bookmark_command(".bookmark  save top   the  best\trows "),
        BookmarkRequest::Save {
            name: "top".to_string(),
            description: Some("the best rows".to_string())
        }
    );
    assert_eq!(parse_bookmark_command(".bookmark list extra"), BookmarkRequest::List);
    assert_eq!(parse_bookmark_command(".bookmark run"), BookmarkRequest::Usage(BookmarkUsage::Run));
    assert_eq!(parse_bookmark_command(".bookmark run top"), BookmarkRequest::Run("top".to_string()));
    assert_eq!(
        parse_bookmark_command(".bookmark show"),
        BookmarkRequest::Usage(BookmarkUsage::Show)
    );
    assert_eq!(
        parse_bookmark_command(".bookmark show top"),
        BookmarkRequest::Show("top".to_string())
    );
    assert_eq!(
        parse_bookmark_command(".bookmark delete"),
        BookmarkRequest::Usage(BookmarkUsage::Delete)
    );
    assert_eq!(
        parse_bookmark_command(".bookmark delete top"),
        BookmarkRequest::Delete("top".to_string())
    );
    assert_eq!(parse_bookmark_command(".bookmark rename a b"), BookmarkRequest::Unknown);
    assert_eq!(
        BookmarkUsage::General.text(),
        "Usage: .bookmark [save|list|run|show|delete] [args...]"
    );
    assert_eq!(BookmarkUsage::Save.text(), "Usage: .bookmark save NAME [DESCRIPTION]");
    assert_eq!(BookmarkUsage::Run.text(), "Usage: .bookmark run NAME");
    assert_eq!(BookmarkUsage::Show.text(), "Usage: .bookmark show NAME");
    assert_eq!(BookmarkUsage::Delete.text(), "Usage: .bookmark delete NAME");
}

#[test]
fn bookmark_commands_are_carried_out() {
    let mut bookmarks = BookmarkManager::new();
    assert_eq!(
        handle_bookmark_command(".bookmark save top", &mut bookmarks, ""),
        Ok(BookmarkOutcome::NoQueryToSave)
    );
    assert!(bookmarks.is_empty());
    let saved = handle_bookmark_command(".bookmark save top the best", &mut bookmarks, "SELECT 1")
        .unwrap();
    assert_eq!(saved, BookmarkOutcome::Saved("top".to_string()));
    assert!(saved.changes_collection());
    assert_eq!(saved.lines(), vec!["Bookmark 'top' saved."]);
    let stored = bookmarks.get_bookmark("top").unwrap();
    assert_eq!(stored.query, "SELECT 1");
    assert_eq!(stored.description, Some("the best".to_string()));

    assert_eq!(
        handle_bookmark_command(".bookmark save a/b", &mut bookmarks, "SELECT 1"),
        Err(BookmarkError::InvalidCharacters)
    );

    let run = handle_bookmark_command(".bookmark run top", &mut bookmarks, "").unwrap();
    assert_eq!(
        run,
        BookmarkOutcome::Run { name: "top".to_string(), query: "SELECT 1".to_string() }
    );
    assert_eq!(run.lines(), vec!["Executing bookmark 'top': SELECT 1"]);
    assert!(!run.changes_collection());
    let missing = handle_bookmark_command(".bookmark run nope", &mut bookmarks, "").unwrap();
    assert_eq!(missing, BookmarkOutcome::NotFound("nope".to_string()));
    assert_eq!(missing.lines(), vec!["Bookmark 'nope' not found."]);

    match handle_bookmark_command(".bookmark list", &mut bookmarks, "").unwrap() {
        BookmarkOutcome::Listing(listed) => {
            assert_eq!(listed.len(), 1);
            assert_eq!(listed[0].name, "top");
        }
        other => panic!("{:?}", other),
    }
    match handle_bookmark_command(".bookmark show top", &mut bookmarks, "").unwrap() {
        BookmarkOutcome::Details(lines) => {
            assert_eq!(lines[0], "Bookmark: top");
            assert_eq!(lines[1], "Description: the best");
            assert_eq!(lines[5], "SELECT 1");
        }
        other => panic!("{:?}", other),
    }
    assert_eq!(
        handle_bookmark_command(".bookmark show nope", &mut bookmarks, ""),
        Ok(BookmarkOutcome::NotFound("nope".to_string()))
    );
    let deleted = handle_bookmark_command(".bookmark delete top", &mut bookmarks, "").unwrap();
    assert_eq!(deleted, BookmarkOutcome::Deleted("top".to_string()));
    assert!(deleted.changes_collection());
    assert_eq!(deleted.lines(), vec!["Bookmark 'top' deleted."]);
    assert_eq!(
        handle_bookmark_command(".bookmark delete top", &mut bookmarks, ""),
        Ok(BookmarkOutcome::NotFound("top".to_string()))
    );
    let listing = handle_bookmark_command(".bookmark list", &mut bookmarks, "").unwrap();
    assert_eq!(listing.lines(), vec!["No bookmarks saved."]);
    let usage = handle_bookmark_command(".bookmark", &mut bookmarks, "").unwrap();
    assert_eq!(usage.lines(), vec!["Usage: .bookmark [save|list|run|show|delete] [args...]"]);
    let unknown = handle_bookmark_command(".bookmark what", &mut bookmarks, "").unwrap();
    assert_eq!(unknown, BookmarkOutcome::UnknownCommand);
    assert_eq!(
        unknown.lines(),
        vec!["Unknown bookmark command. Use: save, list, run, show, or delete"]
    );
    assert_eq!(
        BookmarkOutcome::NoQueryToSave.lines(),
        vec!["No query to save. Execute a query first."]
    );
}

#[test]
fn pending_statement_is_trimmed_when_it_completes() {
    let mut buffer = "  SELECT *".to_string();
    assert_eq!(assemble_line(&mut buffer, "FROM t", "from t"), None);
    assert_eq!(buffer, "  SELECT * FROM t");
    // A bare keyword inside a pending statement does not end it.
    assert_eq!(assemble_line(&mut buffer, "exit", "exit"), None);
    assert_eq!(buffer, "  SELECT * FROM t exit");
    assert_eq!(
        assemble_line(&mut buffer, "WHERE a = 1;", "where a = 1;"),
        Some("SELECT * FROM t exit WHERE a = 1;".to_string())
    );
    assert_eq!(buffer, "");
    // An empty line goes into a pending statement as a space.
    let mut buffer = "SELECT".to_string();
    assert_eq!(assemble_line(&mut buffer, "", ""), None);
    assert_eq!(buffer, "SELECT ");
}

#[test]
fn bare_commands_on_lowercase_text() {
    for word in ["exit", "quit", "help", "tables", "clear", "info"] {
        assert!(is_complete_lowered(word));
    }
    for line in ["schema", "schema users", ".x", "begin", "beginning", "commit now", "rollback", "drop t"] {
        assert!(is_complete_lowered(line));
    }
    for line in ["", "exit ", " exit", "exits", "select 1", "sch", "EXIT"] {
        assert!(!is_complete_lowered(line));
    }
}

#[test]
fn prompt_shows_pending_input_and_transactions() {
    let mut manager = TransactionManager::new();
    assert_eq!(get_prompt("", &manager), "> ");
    assert_eq!(get_prompt("SELECT", &manager), "... ");
    manager.conclude(TransactionOp::Begin, Ok(0)).unwrap();
    assert_eq!(get_prompt("", &manager), "*> ");
    assert_eq!(get_prompt("SELECT", &manager), "... ");
}

#[test]
fn session_routes_complete_commands() {
    let mut buffer = String::new();
    assert_eq!(session_step(&mut buffer, "   "), SessionStep::ReadOn);
    assert_eq!(buffer, "");
    assert_eq!(
        session_step(&mut buffer, "  .format json  "),
        SessionStep::RunSpecial(".format json".to_string())
    );
    assert_eq!(
        session_step(&mut buffer, " SELECT 1; "),
        SessionStep::RunStatement("SELECT 1;".to_string())
    );
    assert_eq!(session_step(&mut buffer, "SELECT *"), SessionStep::ReadOn);
    assert_eq!(buffer, "SELECT *");
    assert_eq!(
        session_step(&mut buffer, "  FROM t;  "),
        SessionStep::RunStatement("SELECT * FROM t;".to_string())
    );
    assert_eq!(buffer, "");
    assert_eq!(session_step(&mut buffer, "BEGIN"), SessionStep::RunStatement("BEGIN".to_string()));
    assert_eq!(route_command(" .help "), SessionStep::RunSpecial(".help".to_string()));
    assert_eq!(route_command("help"), SessionStep::RunStatement("help".to_string()));
    assert!(remember_line(" SELECT "));
    assert!(!remember_line("  \t "));
    assert!(!remember_line(""));
}

#[test]
fn critical_errors_and_reconnection() {
    assert!(is_critical_error("Database is locked"));
    assert!(is_critical_error("lost CONNECTION to server"));
    assert!(is_critical_error("disk I/O error"));
    assert!(is_critical_error("Disk full"));
    assert!(!is_critical_error("no such table: t"));
    assert!(!is_critical_error(""));
    assert!(accepts_reconnection("y"));
    assert!(accepts_reconnection("  Yes please\n"));
    assert!(!accepts_reconnection("n"));
    assert!(!accepts_reconnection(""));
    assert!(!accepts_reconnection(" oh yes"));
}

#[test]
fn plain_prompt_steps() {
    assert_eq!(basic_step(" exit \n"), BasicStep::Leave);
    assert_eq!(basic_step(".exit"), BasicStep::Leave);
    assert_eq!(basic_step("  \n"), BasicStep::Skip);
    assert_eq!(basic_step(" SELECT 1\n"), BasicStep::Execute("SELECT 1".to_string()));
    assert_eq!(basic_step("quit"), BasicStep::Execute("quit".to_string()));
}

fn store_with(name: &str, query: &str) -> BookmarkManager {
    let mut bookmarks = BookmarkManager::new();
    bookmarks
        .save_with_timestamp(name.to_string(), query.to_string(), None, "t".to_string())
        .unwrap();
    bookmarks
}

#[test]
fn a_run_bookmark_passes_the_transaction_guard() {
    let conn = rusqlite::Connection::open_in_memory().unwrap();
    let mut bookmarks = store_with("b", "BEGIN");
    let mut guard = TransactionManager::new();
    let (outcome, answer) =
        carry_out_bookmark_command(".bookmark run b", &mut bookmarks, "", &mut guard, &conn)
            .unwrap();
    assert_eq!(outcome, BookmarkOutcome::Run { name: "b".to_string(), query: "BEGIN".to_string() });
    assert_eq!(answer.unwrap().unwrap(), Intercept::Handled(Notice::Started));
    assert!(guard.is_active());
    assert!(!conn.is_autocommit());
    // Run again inside the transaction: a warning, as if it had been typed.
    let (_, answer) =
        carry_out_bookmark_command(".bookmark run b", &mut bookmarks, "", &mut guard, &conn)
            .unwrap();
    assert_eq!(answer.unwrap().unwrap(), Intercept::Handled(Notice::AlreadyActive));
    assert!(guard.is_active());
}

#[test]
fn a_run_bookmark_that_the_guard_declines_is_left_to_the_database() {
    let conn = rusqlite::Connection::open_in_memory().unwrap();
    let mut bookmarks = store_with("one", "SELECT 1");
    let mut guard = TransactionManager::new();
    let (outcome, answer) =
        carry_out_bookmark_command(".bookmark run one", &mut bookmarks, "", &mut guard, &conn)
            .unwrap();
    assert_eq!(
        outcome,
        BookmarkOutcome::Run { name: "one".to_string(), query: "SELECT 1".to_string() }
    );
    assert_eq!(answer.unwrap().unwrap(), Intercept::NotMine);
    assert!(!guard.is_active());
    // A drop of a table that is not there is reported by the guard.
    let mut bookmarks = store_with("d", "DROP TABLE ghosts;");
    let (_, answer) =
        carry_out_bookmark_command(".bookmark run d", &mut bookmarks, "", &mut guard, &conn)
            .unwrap();
    assert_eq!(
        answer.unwrap().unwrap(),
        Intercept::Handled(Notice::TableMissing("ghosts".to_string()))
    );
}

#[test]
fn a_refused_statement_of_a_run_bookmark_is_handed_back() {
    let conn = rusqlite::Connection::open_in_memory().unwrap();
    conn.execute("BEGIN", []).unwrap();
    let mut bookmarks = store_with("b", "begin");
    let mut guard = TransactionManager::new();
    let (outcome, answer) =
        carry_out_bookmark_command(".bookmark run b", &mut bookmarks, "", &mut guard, &conn)
            .unwrap();
    assert!(matches!(outcome, BookmarkOutcome::Run { .. }));
    assert_eq!(answer.unwrap().unwrap_err().step, FailedStep::Begin);
    assert!(!guard.is_active());
}

#[test]
fn other_bookmark_commands_leave_the_guard_alone() {
    let conn = rusqlite::Connection::open_in_memory().unwrap();
    let mut bookmarks = store_with("b", "BEGIN");
    let mut guard = TransactionManager::new();
    for line in [
        ".bookmark",
        ".bookmark list",
        ".bookmark show b",
        ".bookmark run nope",
        ".bookmark run",
        ".bookmark save c",
        ".bookmark delete b",
        ".bookmark what",
    ] {
        let (outcome, answer) =
            carry_out_bookmark_command(line, &mut bookmarks, "SELECT 2", &mut guard, &conn)
                .unwrap();
        assert!(answer.is_none(), "{}", line);
        assert!(!matches!(outcome, BookmarkOutcome::Run { .. }));
        assert!(!guard.is_active());
    }
    assert!(bookmarks.get_bookmark("c").is_some());
    assert!(bookmarks.get_bookmark("b").is_none());
    assert_eq!(
        carry_out_bookmark_command(".bookmark save a/b", &mut bookmarks, "q", &mut guard, &conn)
            .unwrap_err(),
        BookmarkError::InvalidCharacters
    );
}
