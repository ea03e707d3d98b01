//! What the game shows and asks. The game never prints or reads by itself:
//! it hands screens and option lists to a [`Menu`].

use vstd::prelude::*;
use vstd::string::StringExecFns;

verus! {

/// A page of text: a heading and what stands below it.
#[derive(Debug)]
pub struct Screen {
    /// The heading.
    pub title: String,
    /// The text below the heading.
    pub content: String,
}

/// A question with the answers the player may pick from.
#[derive(Debug)]
pub struct OptionList {
    /// The answers on offer, in the order in which they are shown.
    pub options: Vec<String>,
    /// The question.
    pub prompt: String,
}

impl OptionList {
    /// The question `prompt` with the answers `options`.
    pub fn new(options: Vec<String>, prompt: &str) -> (list: OptionList)
        ensures
            list.options == options,
            list.prompt@ == prompt@,
    {
        OptionList { options, prompt: String::from_str(prompt) }
    }
}

/// The front end: whatever shows text to the player and reports what they
/// picked.
///
/// Nothing is assumed of an implementation. In particular the game checks
/// every index that `show_option_list` returns and reports
/// [`GameError::InvalidChoiceIndex`](crate::error::GameError) for one that
/// was not on offer.
pub trait Menu {
    /// Shows `screen` to the player.
    fn show_screen(&mut self, screen: Screen);

    /// Asks the player to pick one of the answers of `list` and returns the
    /// position of the answer picked. The game never asks without offering
    /// at least one answer.
    fn show_option_list(&mut self, list: OptionList) -> usize
        requires
            list.options.len() > 0,
    ;
}

/// A page as it stands on the screen: the heading and the text below it.
pub type Page = (Seq<char>, Seq<char>);

/// A question as it was put and answered: the answers on offer, the prompt,
/// and the position that the front end gave back.
pub type Question = (Seq<Seq<char>>, Seq<char>, usize);

/// The words of a list of labels.
pub open spec fn words(labels: Seq<String>) -> Seq<Seq<char>> {
    Seq::new(labels.len(), |i: int| labels[i]@)
}

/// A front end together with the record of what the game has done on it:
/// the pages shown, and the questions put with the answers that came back,
/// each in the order in which it happened. The record is kept for proofs
/// alone: it takes no room at run time.
///
/// A console is a [`Menu`] itself. Functions that show pages or put
/// questions take a console, so that they can say what they showed and
/// asked.
pub struct Console<M: Menu> {
    menu: M,
    pages: Ghost<Seq<Page>>,
    questions: Ghost<Seq<Question>>,
}

impl<M: Menu> Console<M> {
    /// The pages that have been shown on the console, oldest first.
    pub closed spec fn shown(&self) -> Seq<Page> {
        self.pages@
    }

    /// The questions that have been put on the console, each with its
    /// answer, oldest first.
    pub closed spec fn asked(&self) -> Seq<Question> {
        self.questions@
    }

    /// The front end behind the console.
    pub closed spec fn front(&self) -> M {
        self.menu
    }

    /// A console on the front end `menu`, on which nothing has been shown
    /// or asked yet.
    pub fn new(menu: M) -> (console: Console<M>)
        ensures
            console.front() == menu,
            console.shown() == Seq::<Page>::empty(),
            console.asked() == Seq::<Question>::empty(),
    {
        Console { menu, pages: Ghost(Seq::empty()), questions: Ghost(Seq::empty()) }
    }

    /// The front end behind the console.
    pub fn inner(&self) -> (menu: &M)
        ensures
            *menu == self.front(),
    {
        &self.menu
    }

    /// Gives the front end back.
    pub fn into_inner(self) -> (menu: M)
        ensures
            menu == self.front(),
    {
        self.menu
    }
}

impl<M: Menu> Menu for Console<M> {
    /// Shows `screen` on the front end and adds it to the record of pages.
    fn show_screen(&mut self, screen: Screen)
        ensures
            final(self).shown() == old(self).shown().push((screen.title@, screen.content@)),
            final(self).asked() == old(self).asked(),
    {
        let ghost page = (screen.title@, screen.content@);
        self.menu.show_screen(screen);
        self.pages = Ghost(self.pages@.push(page));
    }

    /// Puts the question to the front end, hands its answer on as it came,
    /// and adds both to the record of questions.
    fn show_option_list(&mut self, list: OptionList) -> (choice: usize)
        ensures
            final(self).shown() == old(self).shown(),
            final(self).asked() == old(self).asked().push(
                (words(list.options@), list.prompt@, choice),
            ),
    {
        let ghost labels = words(list.options@);
        let ghost prompt = list.prompt@;
        let choice = self.menu.show_option_list(list);
        self.questions = Ghost(self.questions@.push((labels, prompt, choice)));
        choice
    }
}

} // verus!
