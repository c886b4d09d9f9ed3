//! What the generated setter of a property does when it runs.
//!
//! An object is taken as the values of its fields and the signals it has
//! emitted.  Each statement of a generated method has its effect on the
//! object; the effect of the setter follows from the statements that the
//! generator emits for it.

use crate::generator::naming::property::QPropertyNameView;
use crate::generator::naming::qobject::QObjectNameView;
use crate::generator::rust::fragment::StmtView;
use crate::generator::rust::property::setter::{setter_mutator, setter_wrapper};
use crate::syntax::TypeView;
use vstd::prelude::*;

verus! {

/// An object at run time: the value of each field of its Rust struct, by
/// the name of the field, and the signals emitted so far, oldest first,
/// by their names.
pub struct ObjectState<T> {
    pub fields: Map<Seq<char>, T>,
    pub emitted: Seq<Seq<char>>,
}

/// The methods of the C++ object that take a value, by their names: what
/// each does to the object.
pub type CppMethods<T> = spec_fn(Seq<char>) -> spec_fn(ObjectState<T>, T) -> ObjectState<T>;

impl<T> ObjectState<T> {
    /// The object after `field` was set to `value` by a setter that
    /// announces a change by `signal`: unchanged if the field held the
    /// value already, else holding it and having emitted the signal once.
    pub open spec fn set(self, field: Seq<char>, value: T, signal: Seq<char>) -> ObjectState<T> {
        if self.fields[field] == value {
            self
        } else {
            ObjectState {
                fields: self.fields.insert(field, value),
                emitted: self.emitted.push(signal),
            }
        }
    }

    /// The object after `field` was set to each of `values` in turn.
    pub open spec fn set_each(self, field: Seq<char>, values: Seq<T>, signal: Seq<char>) -> ObjectState<
        T,
    >
        decreases values.len(),
    {
        if values.len() == 0 {
            self
        } else {
            self.set_each(field, values.drop_last(), signal).set(field, values.last(), signal)
        }
    }
}

/// The object after the statements of `block` ran on it with the
/// parameter `value`.
pub open spec fn run_block<T>(
    block: Seq<StmtView>,
    object: ObjectState<T>,
    value: T,
    cpp: CppMethods<T>,
) -> ObjectState<T>
    decreases block.len(),
{
    if block.len() == 0 {
        object
    } else {
        let rest = block.drop_first();
        match block[0] {
            StmtView::ForwardToCpp { method } => run_block(
                rest,
                cpp(method)(object, value),
                value,
                cpp,
            ),
            StmtView::ReturnIfEqual { field } => if object.fields[field] == value {
                object
            } else {
                run_block(rest, object, value, cpp)
            },
            StmtView::UnsafeStore { field } => run_block(
                rest,
                ObjectState { fields: object.fields.insert(field, value), ..object },
                value,
                cpp,
            ),
            StmtView::Notify { signal } => run_block(
                rest,
                ObjectState { emitted: object.emitted.push(signal), ..object },
                value,
                cpp,
            ),
        }
    }
}

/// Whether each of `values` differs from the value that is held when it is
/// set: the first from `held`, every other from the one before it.
pub open spec fn each_differs<T>(held: T, values: Seq<T>) -> bool {
    forall|i: int|
        0 <= i < values.len() ==> #[trigger] values[i] != (if i == 0 {
            held
        } else {
            values[i - 1]
        })
}

/// The setter that is generated for the C++ object sets the field of the
/// property and announces a change by the notify signal of the property:
/// it leaves the object as it is if the field holds the value already,
/// and else writes the field and emits the signal once.
pub proof fn lemma_setter_mutator_sets<T>(
    idents: QPropertyNameView,
    qobject_idents: QObjectNameView,
    ty: TypeView,
    object: ObjectState<T>,
    value: T,
    cpp: CppMethods<T>,
)
    ensures
        run_block(setter_mutator(idents, qobject_idents, ty).block, object, value, cpp)
            == object.set(idents.name.rust, value, idents.notify.rust),
{
    let block = setter_mutator(idents, qobject_idents, ty).block;
    let store = block.drop_first();
    let notify = store.drop_first();
    assert(notify.drop_first().len() == 0);
    reveal_with_fuel(run_block, 4);
}

/// The setter that is generated for the Rust struct does what the setter
/// of the C++ object does, and nothing else.
pub proof fn lemma_setter_wrapper_forwards<T>(
    idents: QPropertyNameView,
    qobject_idents: QObjectNameView,
    ty: TypeView,
    object: ObjectState<T>,
    value: T,
    cpp: CppMethods<T>,
)
    ensures
        run_block(setter_wrapper(idents, qobject_idents, ty).block, object, value, cpp) == cpp(
            idents.setter.rust,
        )(object, value),
{
    let block = setter_wrapper(idents, qobject_idents, ty).block;
    assert(block.drop_first().len() == 0);
    reveal_with_fuel(run_block, 2);
}

/// Setting a field to the value it was just set to has no effect: the
/// first call emits the signal at most once, the second not at all.
pub proof fn lemma_set_again<T>(
    object: ObjectState<T>,
    field: Seq<char>,
    value: T,
    signal: Seq<char>,
)
    ensures
        object.set(field, value, signal).set(field, value, signal) == object.set(
            field,
            value,
            signal,
        ),
        object.set(field, value, signal).emitted == object.emitted || object.set(
            field,
            value,
            signal,
        ).emitted == object.emitted.push(signal),
{
}

/// Setting a field to values of which each differs from the one held
/// before emits the signal once for each of them, and nothing else; the
/// last value is the one held in the end.
pub proof fn lemma_set_each_notifies<T>(
    object: ObjectState<T>,
    field: Seq<char>,
    values: Seq<T>,
    signal: Seq<char>,
)
    requires
        each_differs(object.fields[field], values),
    ensures
        object.set_each(field, values, signal).emitted == object.emitted + Seq::new(
            values.len(),
            |i: int| signal,
        ),
        object.set_each(field, values, signal).fields[field] == (if values.len() == 0 {
            object.fields[field]
        } else {
            values.last()
        }),
    decreases values.len(),
{
    let repeated = Seq::new(values.len(), |i: int| signal);
    if values.len() > 0 {
        let earlier = values.drop_last();
        assert forall|i: int| 0 <= i < earlier.len() implies #[trigger] earlier[i] != (if i == 0 {
            object.fields[field]
        } else {
            earlier[i - 1]
        }) by {
            assert(earlier[i] == values[i]);
        }
        lemma_set_each_notifies(object, field, earlier, signal);
        assert(values[values.len() - 1] != (if values.len() - 1 == 0 {
            object.fields[field]
        } else {
            values[values.len() - 2]
        }));
    }
    assert(object.set_each(field, values, signal).emitted =~= object.emitted + repeated);
}

} // verus!
