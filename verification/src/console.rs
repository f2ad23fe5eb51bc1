//! What the console decides from what the user typed: which menu entry was
//! chosen, and whether a question was answered with yes or with no.
use vstd::prelude::*;

verus! {

/// An entry of the customer menu.
#[derive(Debug, Clone, Copy, PartialEq, Eq)]
pub enum MenuOption {
    ShowCustomers,
    UpdateCustomer,
    RemoveCustomer,
    RegisterCustomer,
    Leave,
    /// The number typed stands for no entry.
    Unknown,
}

/// The entry that stands under a number of the menu: 1 to 5, in the order of
/// the variants.
pub open spec fn menu_option_of(choice: int) -> MenuOption {
    if choice == 1 {
        MenuOption::ShowCustomers
    } else if choice == 2 {
        MenuOption::UpdateCustomer
    } else if choice == 3 {
        MenuOption::RemoveCustomer
    } else if choice == 4 {
        MenuOption::RegisterCustomer
    } else if choice == 5 {
        MenuOption::Leave
    } else {
        MenuOption::Unknown
    }
}

/// The menu entry chosen by typing `choice`.
pub fn menu_option(choice: i32) -> (option: MenuOption)
    ensures
        option == menu_option_of(choice as int),
{
    match choice {
        1 => MenuOption::ShowCustomers,
        2 => MenuOption::UpdateCustomer,
        3 => MenuOption::RemoveCustomer,
        4 => MenuOption::RegisterCustomer,
        5 => MenuOption::Leave,
        _ => MenuOption::Unknown,
    }
}

/// The answer to a question that takes yes or no.
#[derive(Debug, Clone, Copy, PartialEq, Eq)]
pub enum Answer {
    Yes,
    No,
    /// Neither: the question is to be asked again.
    Unclear,
}

/// What a typed text answers: the single letter `s`, small or capital, is
/// yes; the single letter `n`, small or capital, is no; anything else is
/// unclear.
pub open spec fn answer_of(text: Seq<char>) -> Answer {
    if text == seq!['s'] || text == seq!['S'] {
        Answer::Yes
    } else if text == seq!['n'] || text == seq!['N'] {
        Answer::No
    } else {
        Answer::Unclear
    }
}

/// What `text` answers.
pub fn answer(text: &str) -> (answer: Answer)
    ensures
        answer == answer_of(text@),
{
    if text.unicode_len() != 1 {
        return Answer::Unclear;
    }
    let letter = text.get_char(0);
    if letter == 's' || letter == 'S' {
        assert(text@ =~= seq![letter]);
        Answer::Yes
    } else if letter == 'n' || letter == 'N' {
        assert(text@ =~= seq![letter]);
        Answer::No
    } else {
        Answer::Unclear
    }
}

} // verus!
