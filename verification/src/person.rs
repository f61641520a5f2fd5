//! A person with a name and an age.

use crate::decimal::{decimal, push_decimal};
use vstd::prelude::*;

verus! {

/// The oldest age a [`Person`] can have. A birthday at this age leaves the
/// age where it is.
pub const MAX_AGE: u8 = 255;

/// The age one birthday after `age`: one more, except that it stays at
/// [`MAX_AGE`] once there.
pub open spec fn next_age(age: nat) -> nat {
    if age < MAX_AGE {
        age + 1
    } else {
        MAX_AGE as nat
    }
}

/// The characters of the introduction of somebody called `name` who is
/// `age` years old.
pub open spec fn introduction_text(name: Seq<char>, age: nat) -> Seq<char> {
    "Hello, my name is "@ + name + " and I'm "@ + decimal(age) + " years old"@
}

/// The characters of the congratulation for reaching `age`.
pub open spec fn birthday_text(age: nat) -> Seq<char> {
    "Happy Birthday! You are now "@ + decimal(age) + " years old"@
}

/// What a [`Person`] is, mathematically: the characters of the name and the
/// age in years.
pub ghost struct PersonView {
    pub name: Seq<char>,
    pub age: nat,
}

impl PersonView {
    /// This person one birthday later.
    pub open spec fn after_birthday(self) -> PersonView {
        PersonView { name: self.name, age: next_age(self.age) }
    }

    /// This person `n` birthdays later.
    pub open spec fn after_birthdays(self, n: nat) -> PersonView
        decreases n,
    {
        if n == 0 {
            self
        } else {
            self.after_birthdays((n - 1) as nat).after_birthday()
        }
    }
}

/// A named person. The name is fixed at construction; the age only changes
/// through [`Person::birthday`].
pub struct Person {
    name: String,
    age: u8,
}

impl View for Person {
    type V = PersonView;

    closed spec fn view(&self) -> PersonView {
        PersonView { name: self.name@, age: self.age as nat }
    }
}

impl Person {
    /// A person called `name` who is `age` years old.
    pub fn new(name: String, age: u8) -> (person: Person)
        ensures
            person@ == (PersonView { name: name@, age: age as nat }),
    {
        Person { name, age }
    }

    /// The person's name.
    pub fn name(&self) -> (name: &str)
        ensures
            name@ == self@.name,
    {
        self.name.as_str()
    }

    /// The person's age in years.
    pub fn age(&self) -> (age: u8)
        ensures
            age as nat == self@.age,
    {
        self.age
    }

    /// Introduces the person by name and age, the age in decimal notation.
    /// The person is left as it was.
    pub fn greet(&self) -> (text: String)
        ensures
            text@ == introduction_text(self@.name, self@.age),
    {
        let mut text = String::from_str("Hello, my name is ");
        text.append(self.name.as_str());
        text.append(" and I'm ");
        push_decimal(&mut text, self.age);
        text.append(" years old");
        text
    }

    /// Makes the person one year older and congratulates on the new age.
    ///
    /// The age saturates: at [`MAX_AGE`] it stays where it is, and the text
    /// then names that same age. The name never changes.
    pub fn birthday(&mut self) -> (text: String)
        ensures
            final(self)@ == old(self)@.after_birthday(),
            text@ == birthday_text(final(self)@.age),
    {
        if self.age < MAX_AGE {
            self.age = self.age + 1;
        }
        let mut text = String::from_str("Happy Birthday! You are now ");
        push_decimal(&mut text, self.age);
        text.append(" years old");
        text
    }
}

/// Every person's age is at most [`MAX_AGE`].
pub proof fn lemma_age_bounded(person: Person)
    ensures
        person@.age <= MAX_AGE,
{
}

/// After `n` birthdays the name is unchanged and the age has grown by
/// exactly `n`, or has stopped at [`MAX_AGE`] if that would exceed it.
pub proof fn lemma_after_birthdays(person: PersonView, n: nat)
    requires
        person.age <= MAX_AGE,
    ensures
        person.after_birthdays(n).name == person.name,
        person.age + n <= MAX_AGE ==> person.after_birthdays(n).age == person.age + n,
        person.age + n > MAX_AGE ==> person.after_birthdays(n).age == MAX_AGE,
    decreases n,
{
    if n > 0 {
        lemma_after_birthdays(person, (n - 1) as nat);
    }
}

} // verus!
