use bill_manager::bill::Bill;
use bill_manager::bills::Bills;
use bill_manager::input::clean_input;
use bill_manager::menu::{add_bill, list_bills, remove_bill, update_bill, view_bills};
use bill_manager::output::{Message, Output};
use bill_manager::session::{Session, Stage};

/// The number that a line reads as, as the front end works it out.
fn reading(line: &str) -> Option<u64> {
    clean_input(line).and_then(|text| text.parse::<f64>().ok()).map(f64::to_bits)
}

fn answer(session: &mut Session, line: &str) -> Vec<Output> {
    session.step(line, reading(line))
}

fn say(message: Message) -> Output {
    Output::Say(message)
}

fn listing(bills: &Bills) -> Vec<(String, f64)> {
    let mut all: Vec<(String, f64)> = bills
        .get_all()
        .iter()
        .map(|b| (b.name().to_string(), f64::from_bits(b.amount())))
        .collect();
    all.sort_by(|a, b| a.0.cmp(&b.0));
    all
}

fn session_with(bills: &[(&str, f64)]) -> Session {
    let (mut session, _) = Session::start();
    for (name, amount) in bills {
        answer(&mut session, "1\n");
        answer(&mut session, &format!("{name}\n"));
        answer(&mut session, &format!("{amount}\n"));
    }
    session
}

#[test]
fn start_shows_the_menu() {
    let (session, said) = Session::start();
    assert_eq!(said, vec![say(Message::Menu)]);
    assert_eq!(session.stage(), &Stage::Selecting);
    assert!(!session.is_finished());
    assert!(session.bills().get_all().is_empty());
}

#[test]
fn empty_line_at_the_menu_ends_the_session() {
    let (mut session, _) = Session::start();
    let said = answer(&mut session, "\n");
    assert_eq!(said, vec![]);
    assert!(session.is_finished());
    assert_eq!(session.stage(), &Stage::Finished);
}

#[test]
fn blank_line_at_the_menu_ends_the_session() {
    let (mut session, _) = Session::start();
    let said = answer(&mut session, "   \t\r\n");
    assert_eq!(said, vec![]);
    assert!(session.is_finished());
}

#[test]
fn unrecognized_token_ends_the_session() {
    let (mut session, _) = Session::start();
    let said = answer(&mut session, "9\n");
    assert_eq!(said, vec![say(Message::InvalidMenu)]);
    assert!(session.is_finished());
}

#[test]
fn other_unrecognized_tokens_end_the_session() {
    for line in ["0\n", "5\n", "12\n", "1 2\n", "add\n", "1.0\n", "-1\n"] {
        let mut session = session_with(&[("Rent", 1200.0)]);
        let said = answer(&mut session, line);
        assert_eq!(said, vec![say(Message::InvalidMenu)]);
        assert!(session.is_finished());
        assert_eq!(listing(session.bills()), vec![("Rent".to_string(), 1200.0)]);
    }
}

#[test]
fn finished_session_takes_no_more_answers() {
    let mut session = session_with(&[("Rent", 1200.0)]);
    answer(&mut session, "\n");
    for line in ["1\n", "Rent\n", "3\n", "\n", "9\n"] {
        let said = answer(&mut session, line);
        assert_eq!(said, vec![]);
        assert!(session.is_finished());
    }
    assert_eq!(listing(session.bills()), vec![("Rent".to_string(), 1200.0)]);
}

#[test]
fn selection_is_read_from_the_trimmed_line() {
    let (mut session, _) = Session::start();
    let said = answer(&mut session, "  1 \r\n");
    assert_eq!(said, vec![say(Message::AskName)]);
    assert_eq!(session.stage(), &Stage::AddName);
}

#[test]
fn advance_takes_the_text_as_it_is() {
    let (mut session, _) = Session::start();
    let said = session.advance(" 1", None);
    assert_eq!(said, vec![say(Message::InvalidMenu)]);
    assert!(session.is_finished());
}

#[test]
fn add_flow_adds_the_bill() {
    let (mut session, _) = Session::start();
    assert_eq!(answer(&mut session, "1\n"), vec![say(Message::AskName)]);
    assert_eq!(
        answer(&mut session, "Rent\n"),
        vec![say(Message::Blank), say(Message::AskAmount)]
    );
    assert_eq!(session.stage(), &Stage::AddAmount { name: "Rent".to_string() });
    assert!(session.bills().get_all().is_empty());
    assert_eq!(
        answer(&mut session, "1200.0\n"),
        vec![say(Message::Added), say(Message::Menu)]
    );
    assert_eq!(session.stage(), &Stage::Selecting);
    assert_eq!(listing(session.bills()), vec![("Rent".to_string(), 1200.0)]);
}

#[test]
fn add_flow_keeps_inner_blanks_of_the_name() {
    let (mut session, _) = Session::start();
    answer(&mut session, "1\n");
    answer(&mut session, "  Car  Loan \n");
    answer(&mut session, " 250 \n");
    assert_eq!(listing(session.bills()), vec![("Car  Loan".to_string(), 250.0)]);
}

#[test]
fn add_flow_is_given_up_on_an_empty_name() {
    let mut session = session_with(&[("Rent", 1200.0)]);
    answer(&mut session, "1\n");
    let said = answer(&mut session, "\n");
    assert_eq!(said, vec![say(Message::Menu)]);
    assert_eq!(session.stage(), &Stage::Selecting);
    assert_eq!(listing(session.bills()), vec![("Rent".to_string(), 1200.0)]);
}

#[test]
fn add_flow_is_given_up_on_an_empty_amount() {
    let (mut session, _) = Session::start();
    answer(&mut session, "1\n");
    answer(&mut session, "Rent\n");
    let said = answer(&mut session, "\n");
    assert_eq!(said, vec![say(Message::Menu)]);
    assert_eq!(session.stage(), &Stage::Selecting);
    assert!(session.bills().get_all().is_empty());
}

#[test]
fn non_numeric_amount_on_add_reprompts_and_leaves_the_store() {
    let mut session = session_with(&[("Power", 80.0)]);
    answer(&mut session, "1\n");
    answer(&mut session, "Rent\n");
    for line in ["abc\n", "12,5\n", "1200 eur\n", "--3\n", "0x10\n"] {
        let said = answer(&mut session, line);
        assert_eq!(said, vec![say(Message::NotANumber)]);
        assert_eq!(session.stage(), &Stage::AddAmount { name: "Rent".to_string() });
        assert_eq!(listing(session.bills()), vec![("Power".to_string(), 80.0)]);
    }
    let said = answer(&mut session, "1200\n");
    assert_eq!(said, vec![say(Message::Added), say(Message::Menu)]);
    assert_eq!(
        listing(session.bills()),
        vec![("Power".to_string(), 80.0), ("Rent".to_string(), 1200.0)]
    );
}

#[test]
fn non_numeric_amount_on_add_then_cancel_leaves_the_store() {
    let mut session = session_with(&[("Power", 80.0)]);
    answer(&mut session, "1\n");
    answer(&mut session, "Rent\n");
    answer(&mut session, "abc\n");
    let said = answer(&mut session, "\n");
    assert_eq!(said, vec![say(Message::Menu)]);
    assert_eq!(session.stage(), &Stage::Selecting);
    assert_eq!(listing(session.bills()), vec![("Power".to_string(), 80.0)]);
}

#[test]
fn non_numeric_amount_on_update_reprompts_and_leaves_the_store() {
    let mut session = session_with(&[("Rent", 1200.0)]);
    answer(&mut session, "4\n");
    answer(&mut session, "Rent\n");
    let said = answer(&mut session, "a lot\n");
    assert_eq!(said, vec![say(Message::NotANumber)]);
    assert_eq!(session.stage(), &Stage::UpdateAmount { name: "Rent".to_string() });
    assert_eq!(listing(session.bills()), vec![("Rent".to_string(), 1200.0)]);
    let said = answer(&mut session, "1300\n");
    assert_eq!(said, vec![say(Message::Updated), say(Message::Menu)]);
    assert_eq!(listing(session.bills()), vec![("Rent".to_string(), 1300.0)]);
}

#[test]
fn adding_a_name_twice_keeps_the_latest_amount() {
    let session = session_with(&[("Rent", 1200.0), ("Rent", 1350.0)]);
    assert_eq!(listing(session.bills()), vec![("Rent".to_string(), 1350.0)]);
}

#[test]
fn view_shows_each_bill_as_a_card_and_returns_to_the_menu() {
    let mut session = session_with(&[("Rent", 1200.0), ("Power", 80.0)]);
    let said = answer(&mut session, "2\n");
    assert_eq!(said.len(), 3);
    assert_eq!(said[2], say(Message::Menu));
    let rent = Output::Card(Bill::new("Rent".to_string(), 1200.0f64.to_bits()));
    let power = Output::Card(Bill::new("Power".to_string(), 80.0f64.to_bits()));
    assert!(said[..2].contains(&rent));
    assert!(said[..2].contains(&power));
    assert_eq!(session.stage(), &Stage::Selecting);
    assert_eq!(
        listing(session.bills()),
        vec![("Power".to_string(), 80.0), ("Rent".to_string(), 1200.0)]
    );
}

#[test]
fn view_of_an_empty_store_shows_the_menu_only() {
    let (mut session, _) = Session::start();
    assert_eq!(answer(&mut session, "2\n"), vec![say(Message::Menu)]);
    assert_eq!(session.stage(), &Stage::Selecting);
}

#[test]
fn remove_flow_lists_the_bills_and_removes_the_named_one() {
    let mut session = session_with(&[("Rent", 1200.0), ("Power", 80.0)]);
    let said = answer(&mut session, "3\n");
    assert_eq!(said.len(), 3);
    let rent = Output::Record(Bill::new("Rent".to_string(), 1200.0f64.to_bits()));
    let power = Output::Record(Bill::new("Power".to_string(), 80.0f64.to_bits()));
    assert!(said[..2].contains(&rent));
    assert!(said[..2].contains(&power));
    assert_eq!(said[2], say(Message::AskRemoveName));
    assert_eq!(session.stage(), &Stage::RemoveName);
    let said = answer(&mut session, "Rent\n");
    assert_eq!(
        said,
        vec![
            Output::Echo("Rent".to_string()),
            say(Message::Blank),
            say(Message::Removed),
            say(Message::Menu),
        ]
    );
    assert_eq!(session.stage(), &Stage::Selecting);
    assert_eq!(listing(session.bills()), vec![("Power".to_string(), 80.0)]);
}

#[test]
fn remove_flow_reports_a_name_that_is_not_there() {
    let mut session = session_with(&[("Rent", 1200.0)]);
    answer(&mut session, "3\n");
    let said = answer(&mut session, "Power\n");
    assert_eq!(
        said,
        vec![
            Output::Echo("Power".to_string()),
            say(Message::Blank),
            say(Message::NothingToRemove),
            say(Message::Menu),
        ]
    );
    assert_eq!(listing(session.bills()), vec![("Rent".to_string(), 1200.0)]);
}

#[test]
fn remove_flow_is_given_up_on_an_empty_name() {
    let mut session = session_with(&[("Rent", 1200.0)]);
    answer(&mut session, "3\n");
    let said = answer(&mut session, "\n");
    assert_eq!(said, vec![say(Message::Menu)]);
    assert_eq!(session.stage(), &Stage::Selecting);
    assert_eq!(listing(session.bills()), vec![("Rent".to_string(), 1200.0)]);
}

#[test]
fn update_flow_changes_the_amount_of_the_named_bill_only() {
    let mut session = session_with(&[("Rent", 1200.0), ("Power", 80.0)]);
    let said = answer(&mut session, "4\n");
    assert_eq!(said.len(), 3);
    assert_eq!(said[2], say(Message::AskUpdateName));
    assert_eq!(session.stage(), &Stage::UpdateName);
    assert_eq!(answer(&mut session, "Rent\n"), vec![say(Message::AskAmount)]);
    assert_eq!(session.stage(), &Stage::UpdateAmount { name: "Rent".to_string() });
    assert_eq!(
        answer(&mut session, "1250.75\n"),
        vec![say(Message::Updated), say(Message::Menu)]
    );
    assert_eq!(
        listing(session.bills()),
        vec![("Power".to_string(), 80.0), ("Rent".to_string(), 1250.75)]
    );
}

#[test]
fn update_flow_reports_a_name_that_is_not_there() {
    let mut session = session_with(&[("Rent", 1200.0)]);
    answer(&mut session, "4\n");
    assert_eq!(answer(&mut session, "Power\n"), vec![say(Message::AskAmount)]);
    assert_eq!(
        answer(&mut session, "80\n"),
        vec![say(Message::NothingToUpdate), say(Message::Menu)]
    );
    assert_eq!(listing(session.bills()), vec![("Rent".to_string(), 1200.0)]);
}

#[test]
fn update_flow_is_given_up_on_an_empty_name_or_amount() {
    let mut session = session_with(&[("Rent", 1200.0)]);
    answer(&mut session, "4\n");
    assert_eq!(answer(&mut session, "\n"), vec![say(Message::Menu)]);
    assert_eq!(session.stage(), &Stage::Selecting);
    answer(&mut session, "4\n");
    answer(&mut session, "Rent\n");
    assert_eq!(answer(&mut session, "  \n"), vec![say(Message::Menu)]);
    assert_eq!(session.stage(), &Stage::Selecting);
    assert_eq!(listing(session.bills()), vec![("Rent".to_string(), 1200.0)]);
}

#[test]
fn a_reading_counts_only_while_an_amount_is_awaited() {
    let (mut session, _) = Session::start();
    session.step("1\n", Some(1.0f64.to_bits()));
    assert_eq!(session.stage(), &Stage::AddName);
    session.step("42\n", Some(42.0f64.to_bits()));
    assert_eq!(session.stage(), &Stage::AddAmount { name: "42".to_string() });
    session.step("7\n", Some(7.0f64.to_bits()));
    assert_eq!(listing(session.bills()), vec![("42".to_string(), 7.0)]);
}

#[test]
fn amounts_in_every_spelling_that_reads_as_a_finite_number_are_taken() {
    let session = session_with(&[("a", -3.5), ("b", 1e3), ("c", 0.0), ("d", 0.000001)]);
    assert_eq!(
        listing(session.bills()),
        vec![
            ("a".to_string(), -3.5),
            ("b".to_string(), 1000.0),
            ("c".to_string(), 0.0),
            ("d".to_string(), 0.000001),
        ]
    );
    let (mut other, _) = Session::start();
    answer(&mut other, "1\n");
    answer(&mut other, "big\n");
    assert_eq!(
        answer(&mut other, "+1.5e300\n"),
        vec![say(Message::Added), say(Message::Menu)]
    );
    assert_eq!(listing(other.bills()), vec![("big".to_string(), 1.5e300)]);
}

#[test]
fn nan_is_no_amount_and_the_next_line_is_read() {
    let (mut session, _) = Session::start();
    answer(&mut session, "1\n");
    answer(&mut session, "Rent\n");
    for line in ["NaN\n", "nan\n", "-NaN\n"] {
        assert_eq!(reading(line).map(|bits| f64::from_bits(bits).is_nan()), Some(true));
        assert_eq!(answer(&mut session, line), vec![say(Message::NotANumber)]);
        assert_eq!(session.stage(), &Stage::AddAmount { name: "Rent".to_string() });
        assert!(session.bills().get_all().is_empty());
    }
    assert_eq!(
        answer(&mut session, "7\n"),
        vec![say(Message::Added), say(Message::Menu)]
    );
    assert_eq!(listing(session.bills()), vec![("Rent".to_string(), 7.0)]);
}

#[test]
fn infinities_are_no_amounts() {
    let mut session = session_with(&[("Rent", 1200.0)]);
    answer(&mut session, "4\n");
    answer(&mut session, "Rent\n");
    for line in ["inf\n", "-inf\n", "infinity\n", "+Infinity\n", "1e999\n"] {
        assert_eq!(reading(line).map(|bits| f64::from_bits(bits).is_infinite()), Some(true));
        assert_eq!(answer(&mut session, line), vec![say(Message::NotANumber)]);
        assert_eq!(session.stage(), &Stage::UpdateAmount { name: "Rent".to_string() });
        assert_eq!(listing(session.bills()), vec![("Rent".to_string(), 1200.0)]);
    }
    assert_eq!(
        answer(&mut session, "\n"),
        vec![say(Message::Menu)]
    );
    assert_eq!(listing(session.bills()), vec![("Rent".to_string(), 1200.0)]);
}

#[test]
fn every_pattern_that_is_no_finite_number_is_refused() {
    for bits in [
        f64::NAN.to_bits(),
        f64::INFINITY.to_bits(),
        f64::NEG_INFINITY.to_bits(),
        0x7ff0_0000_0000_0001,
        0xfff8_0000_0000_0000,
        0xffff_ffff_ffff_ffff,
    ] {
        let (mut session, _) = Session::start();
        session.advance("1", None);
        session.advance("Rent", None);
        assert_eq!(session.advance("x", Some(bits)), vec![say(Message::NotANumber)]);
        assert!(session.bills().get_all().is_empty());
    }
    for bits in [
        f64::MAX.to_bits(),
        f64::MIN.to_bits(),
        f64::MIN_POSITIVE.to_bits(),
        0x0000_0000_0000_0001,
        0x8000_0000_0000_0000,
        0x7fef_ffff_ffff_ffff,
    ] {
        let (mut session, _) = Session::start();
        session.advance("1", None);
        session.advance("Rent", None);
        assert_eq!(
            session.advance("x", Some(bits)),
            vec![say(Message::Added), say(Message::Menu)]
        );
        assert_eq!(session.bills().get_all()[0].amount(), bits);
    }
}

#[test]
fn printed_lines_of_a_view() {
    let mut session = session_with(&[("Rent", 1200.0)]);
    let said = answer(&mut session, "2\n");
    let mut printed: Vec<String> = Vec::new();
    for output in &said {
        let amount = output
            .amount()
            .map(|bits| format!("{:?}", f64::from_bits(bits)))
            .unwrap_or_default();
        printed.extend(output.lines(&amount));
    }
    assert_eq!(
        printed,
        vec![
            " ------------ ".to_string(),
            "Bill name: \"Rent\"".to_string(),
            "Bill amount: 1200.0".to_string(),
            " ------------ ".to_string(),
            Message::Menu.text().to_string(),
        ]
    );
}

#[test]
fn printed_lines_of_a_removal() {
    let mut session = session_with(&[("Rent", 1200.0)]);
    let mut printed: Vec<String> = Vec::new();
    for line in ["3\n", "Rent\n"] {
        for output in answer(&mut session, line) {
            let amount = output
                .amount()
                .map(|bits| format!("{:?}", f64::from_bits(bits)))
                .unwrap_or_default();
            printed.extend(output.lines(&amount));
        }
    }
    assert_eq!(
        printed,
        vec![
            "Bill { name: \"Rent\", amount: 1200.0 }".to_string(),
            "Enter bill name to remove: ".to_string(),
            "\"Rent\"".to_string(),
            "".to_string(),
            "bill removed !".to_string(),
            Message::Menu.text().to_string(),
        ]
    );
}

#[test]
fn add_bill_adds_and_says_so() {
    let mut bills = Bills::new();
    let said = add_bill(&mut bills, "Rent".to_string(), 1200.0f64.to_bits());
    assert_eq!(said, vec![say(Message::Added)]);
    assert_eq!(listing(&bills), vec![("Rent".to_string(), 1200.0)]);
    let said = add_bill(&mut bills, "Rent".to_string(), 1.0f64.to_bits());
    assert_eq!(said, vec![say(Message::Added)]);
    assert_eq!(listing(&bills), vec![("Rent".to_string(), 1.0)]);
}

#[test]
fn view_bills_shows_a_card_for_each_bill() {
    let mut bills = Bills::new();
    assert_eq!(view_bills(&bills), vec![]);
    bills.add(Bill::new("Rent".to_string(), 1200.0f64.to_bits()));
    assert_eq!(
        view_bills(&bills),
        vec![Output::Card(Bill::new("Rent".to_string(), 1200.0f64.to_bits()))]
    );
    assert_eq!(listing(&bills), vec![("Rent".to_string(), 1200.0)]);
}

#[test]
fn list_bills_shows_a_record_for_each_bill() {
    let mut bills = Bills::new();
    assert_eq!(list_bills(&bills), vec![]);
    bills.add(Bill::new("Rent".to_string(), 1200.0f64.to_bits()));
    assert_eq!(
        list_bills(&bills),
        vec![Output::Record(Bill::new("Rent".to_string(), 1200.0f64.to_bits()))]
    );
}

#[test]
fn remove_bill_removes_and_says_which() {
    let mut bills = Bills::new();
    bills.add(Bill::new("Rent".to_string(), 1200.0f64.to_bits()));
    assert_eq!(
        remove_bill(&mut bills, "Power"),
        vec![
            Output::Echo("Power".to_string()),
            say(Message::Blank),
            say(Message::NothingToRemove),
        ]
    );
    assert_eq!(listing(&bills), vec![("Rent".to_string(), 1200.0)]);
    assert_eq!(
        remove_bill(&mut bills, "Rent"),
        vec![Output::Echo("Rent".to_string()), say(Message::Blank), say(Message::Removed)]
    );
    assert!(bills.get_all().is_empty());
}

#[test]
fn update_bill_updates_and_says_which() {
    let mut bills = Bills::new();
    bills.add(Bill::new("Rent".to_string(), 1200.0f64.to_bits()));
    assert_eq!(
        update_bill(&mut bills, "Power", 80.0f64.to_bits()),
        vec![say(Message::NothingToUpdate)]
    );
    assert_eq!(listing(&bills), vec![("Rent".to_string(), 1200.0)]);
    assert_eq!(
        update_bill(&mut bills, "Rent", 1300.0f64.to_bits()),
        vec![say(Message::Updated)]
    );
    assert_eq!(listing(&bills), vec![("Rent".to_string(), 1300.0)]);
}
