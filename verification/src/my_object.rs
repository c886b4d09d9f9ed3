//! The object that the generated code is measured against: a `MyObject`
//! with the properties `number` and `string`, behaving as the generated
//! setters make it behave.
//!
//! The C++ object is stood in for by [`MyObject`], which holds the Rust
//! struct and keeps a record of every notify signal it has emitted.

use crate::generator::rust::property::effect::each_differs;
use vstd::prelude::*;
use vstd::std_specs::convert::FromSpecImpl;

verus! {

/// A notify signal of `MyObject`.
#[derive(Debug, Clone, Copy, PartialEq, Eq, Structural)]
pub enum Signal {
    /// The value of `number` has changed.
    NumberChanged,
    /// The value of `string` has changed.
    StringChanged,
}

/// The Rust struct behind the object: it holds the value of each property.
#[derive(Debug, PartialEq, Eq)]
pub struct MyObjectRs {
    pub number: i32,
    pub string: String,
}

/// The values of the properties as plain data, apart from any object.
#[derive(Debug, PartialEq, Eq)]
pub struct Data {
    pub number: i32,
    pub string: String,
}

impl Default for Data {
    fn default() -> (data: Data)
        ensures
            data.number == 0,
            data.string@ == Seq::<char>::empty(),
    {
        Data { number: 0, string: String::new() }
    }
}

impl From<Data> for MyObjectRs {
    fn from(value: Data) -> (object: MyObjectRs) {
        Self { number: value.number, string: value.string }
    }
}

impl FromSpecImpl<Data> for MyObjectRs {
    open spec fn obeys_from_spec() -> bool {
        true
    }

    open spec fn from_spec(value: Data) -> MyObjectRs {
        MyObjectRs { number: value.number, string: value.string }
    }
}

impl From<&MyObjectRs> for Data {
    fn from(value: &MyObjectRs) -> (data: Data) {
        Self { number: value.number.clone(), string: value.string.clone() }
    }
}

impl FromSpecImpl<&MyObjectRs> for Data {
    open spec fn obeys_from_spec() -> bool {
        true
    }

    open spec fn from_spec(value: &MyObjectRs) -> Data {
        Data { number: value.number, string: value.string }
    }
}

/// The Rust struct of a new object: every property has its default value.
pub fn create_my_object_rs() -> (object: Box<MyObjectRs>)
    ensures
        object.number == 0,
        object.string@ == Seq::<char>::empty(),
{
    Box::new(Data::default().into())
}

/// The mathematical value of a [`MyObject`]: the values of its properties
/// and the notify signals it has emitted so far, oldest first.
pub struct MyObjectView {
    pub number: i32,
    pub string: Seq<char>,
    pub emitted: Seq<Signal>,
}

impl MyObjectView {
    /// The object after `number` was set to `value`: unchanged if it held
    /// that value already, else holding it and having announced the change
    /// once.
    pub open spec fn set_number(self, value: i32) -> MyObjectView {
        if self.number == value {
            self
        } else {
            MyObjectView {
                number: value,
                emitted: self.emitted.push(Signal::NumberChanged),
                ..self
            }
        }
    }

    /// The object after `string` was set to `value`: unchanged if it held
    /// that value already, else holding it and having announced the change
    /// once.
    pub open spec fn set_string(self, value: Seq<char>) -> MyObjectView {
        if self.string == value {
            self
        } else {
            MyObjectView {
                string: value,
                emitted: self.emitted.push(Signal::StringChanged),
                ..self
            }
        }
    }

    /// The object after `number` was set to each of `values` in turn.
    pub open spec fn set_numbers(self, values: Seq<i32>) -> MyObjectView
        decreases values.len(),
    {
        if values.len() == 0 {
            self
        } else {
            self.set_numbers(values.drop_last()).set_number(values.last())
        }
    }

    /// The object after `string` was set to each of `values` in turn.
    pub open spec fn set_strings(self, values: Seq<Seq<char>>) -> MyObjectView
        decreases values.len(),
    {
        if values.len() == 0 {
            self
        } else {
            self.set_strings(values.drop_last()).set_string(values.last())
        }
    }
}

/// Setting `number` to the value it was just set to has no effect: the
/// first call emits the notify signal at most once, the second not at all.
pub proof fn lemma_set_number_again(object: MyObjectView, value: i32)
    ensures
        object.set_number(value).set_number(value) == object.set_number(value),
        object.set_number(value).emitted == object.emitted || object.set_number(value).emitted
            == object.emitted.push(Signal::NumberChanged),
{
}

/// Setting `number` to values of which each differs from the one held
/// before emits the notify signal once for each of them, and nothing else;
/// the last value is the one held in the end.
pub proof fn lemma_set_numbers_each_notifies(object: MyObjectView, values: Seq<i32>)
    requires
        each_differs(object.number, values),
    ensures
        object.set_numbers(values).emitted == object.emitted + Seq::new(
            values.len(),
            |i: int| Signal::NumberChanged,
        ),
        object.set_numbers(values).number == (if values.len() == 0 {
            object.number
        } else {
            values.last()
        }),
        object.set_numbers(values).string == object.string,
    decreases values.len(),
{
    if values.len() > 0 {
        let earlier = values.drop_last();
        assert forall|i: int| 0 <= i < earlier.len() implies #[trigger] earlier[i] != (if i == 0 {
            object.number
        } else {
            earlier[i - 1]
        }) by {
            assert(earlier[i] == values[i]);
        }
        lemma_set_numbers_each_notifies(object, earlier);
        assert(values[values.len() - 1] != (if values.len() - 1 == 0 {
            object.number
        } else {
            values[values.len() - 2]
        }));
        assert(object.set_numbers(values).emitted =~= object.emitted + Seq::new(
            values.len(),
            |i: int| Signal::NumberChanged,
        ));
    } else {
        assert(object.set_numbers(values).emitted =~= object.emitted + Seq::new(
            values.len(),
            |i: int| Signal::NumberChanged,
        ));
    }
}

/// Setting `string` to the value it was just set to has no effect: the
/// first call emits the notify signal at most once, the second not at all.
pub proof fn lemma_set_string_again(object: MyObjectView, value: Seq<char>)
    ensures
        object.set_string(value).set_string(value) == object.set_string(value),
        object.set_string(value).emitted == object.emitted || object.set_string(value).emitted
            == object.emitted.push(Signal::StringChanged),
{
}

/// Setting `string` to values of which each differs from the one held
/// before emits the notify signal once for each of them, and nothing else;
/// the last value is the one held in the end.
pub proof fn lemma_set_strings_each_notifies(object: MyObjectView, values: Seq<Seq<char>>)
    requires
        each_differs(object.string, values),
    ensures
        object.set_strings(values).emitted == object.emitted + Seq::new(
            values.len(),
            |i: int| Signal::StringChanged,
        ),
        object.set_strings(values).string == (if values.len() == 0 {
            object.string
        } else {
            values.last()
        }),
        object.set_strings(values).number == object.number,
    decreases values.len(),
{
    if values.len() > 0 {
        let earlier = values.drop_last();
        assert forall|i: int| 0 <= i < earlier.len() implies #[trigger] earlier[i] != (if i == 0 {
            object.string
        } else {
            earlier[i - 1]
        }) by {
            assert(earlier[i] == values[i]);
        }
        lemma_set_strings_each_notifies(object, earlier);
        assert(values[values.len() - 1] != (if values.len() - 1 == 0 {
            object.string
        } else {
            values[values.len() - 2]
        }));
        assert(object.set_strings(values).emitted =~= object.emitted + Seq::new(
            values.len(),
            |i: int| Signal::StringChanged,
        ));
    } else {
        assert(object.set_strings(values).emitted =~= object.emitted + Seq::new(
            values.len(),
            |i: int| Signal::StringChanged,
        ));
    }
}

/// The object as C++ holds it.
#[derive(Debug)]
pub struct MyObject {
    rust: Box<MyObjectRs>,
    emitted: Vec<Signal>,
}

/// The object that a [`MyObjectWrapper`] wraps.
pub type CppObj = MyObject;

impl View for MyObject {
    type V = MyObjectView;

    closed spec fn view(&self) -> MyObjectView {
        MyObjectView {
            number: self.rust.number,
            string: self.rust.string@,
            emitted: self.emitted@,
        }
    }
}

impl MyObject {
    /// A new object: every property has its default value and no signal
    /// has been emitted.
    pub fn new() -> (object: MyObject)
        ensures
            object@ == (MyObjectView {
                number: 0,
                string: Seq::<char>::empty(),
                emitted: Seq::<Signal>::empty(),
            }),
    {
        MyObject { rust: create_my_object_rs(), emitted: Vec::new() }
    }

    /// The Rust struct behind the object.
    pub fn rust(&self) -> (rust: &MyObjectRs)
        ensures
            rust.number == self@.number,
            rust.string@ == self@.string,
    {
        &*self.rust
    }

    /// The notify signals emitted so far, oldest first.
    pub fn emitted(&self) -> (emitted: &Vec<Signal>)
        ensures
            emitted@ == self@.emitted,
    {
        &self.emitted
    }

    /// Getter for the property `number`.
    pub fn number(&self) -> (number: i32)
        ensures
            number == self@.number,
    {
        self.rust.number
    }

    /// Notify for the property `number`.
    fn number_changed(&mut self)
        ensures
            final(self)@ == (MyObjectView {
                emitted: old(self)@.emitted.push(Signal::NumberChanged),
                ..old(self)@
            }),
    {
        self.emitted.push(Signal::NumberChanged);
    }

    /// Setter for the property `number`.
    pub fn set_number(&mut self, value: i32)
        ensures
            final(self)@ == old(self)@.set_number(value),
    {
        if self.rust.number == value {
            // don't want to set the value again and reemit the signal,
            // as this can cause binding loops
            return;
        }
        self.rust.number = value;
        self.number_changed();
    }

    /// Getter for the property `string`.
    pub fn string(&self) -> (string: &String)
        ensures
            string@ == self@.string,
    {
        &self.rust.string
    }

    /// Notify for the property `string`.
    fn string_changed(&mut self)
        ensures
            final(self)@ == (MyObjectView {
                emitted: old(self)@.emitted.push(Signal::StringChanged),
                ..old(self)@
            }),
    {
        self.emitted.push(Signal::StringChanged);
    }

    /// Setter for the property `string`.
    pub fn set_string(&mut self, value: &String)
        ensures
            final(self)@ == old(self)@.set_string(value@),
    {
        if self.rust.string == *value {
            // don't want to set the value again and reemit the signal,
            // as this can cause binding loops
            return;
        }
        self.rust.string = value.clone();
        self.string_changed();
    }
}

/// Access to the C++ object for the Rust code of the object.
pub struct MyObjectWrapper<'a> {
    pub cpp: &'a mut CppObj,
}

impl<'a> MyObjectWrapper<'a> {
    /// The object as it stands.
    pub open spec fn object(&self) -> MyObjectView {
        (*self.cpp)@
    }

    /// Wraps `cpp`: what is done through the wrapper is done to `cpp`.
    pub fn new(cpp: &'a mut CppObj) -> (wrapper: Self)
        ensures
            wrapper.object() == old(cpp)@,
            *final(cpp) == *final(wrapper.cpp),
    {
        Self { cpp }
    }

    /// The value of the property `number`.
    pub fn number(&self) -> (number: i32)
        ensures
            number == self.object().number,
    {
        self.cpp.number()
    }

    /// Sets the property `number`.
    pub fn set_number(&mut self, value: i32)
        ensures
            final(self).object() == old(self).object().set_number(value),
            *final(final(self).cpp) == *final(old(self).cpp),
    {
        self.cpp.set_number(value);
    }

    /// The value of the property `string`.
    pub fn string(&self) -> (string: &String)
        ensures
            string@ == self.object().string,
    {
        self.cpp.string()
    }

    /// Sets the property `string`.
    pub fn set_string(&mut self, value: &String)
        ensures
            final(self).object() == old(self).object().set_string(value@),
            *final(final(self).cpp) == *final(old(self).cpp),
    {
        self.cpp.set_string(value);
    }
}

} // verus!
