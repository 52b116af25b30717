//! The handles: one type per widget kind, each pairing the kind's table with
//! one native object.
//!
//! A handle owns nothing and remembers nothing. It is made once from two
//! addresses that are not null, never changes afterwards, and may be copied
//! freely. Each of its methods stands for exactly one native call and returns
//! that call as a value: through the handle's own table, at the entry's fixed
//! position, on the handle's own object. Making a handle and asking for its
//! object reference stand for no call at all.
//!
//! The kinds share no base type. Where one widget is handed to another, what
//! crosses is the object reference that its handle gives out.

use vstd::prelude::*;
use vstd::string::StringSliceAdditionalSpecFns;
use crate::dispatch::{arg_views, CallView, Entry, NativeCall};
use crate::marshal::{encode_bool, ArgView, NativeArg};
use crate::refs::{ObjectRef, TableRef};
use crate::text::{
    first_terminator_at, has_terminator, lemma_terminated_reads_back, marshal_text, terminated,
    MarshalError,
};

verus! {

/// A call without declared arguments.
fn call_with_none(entry: Entry, table: TableRef, object: ObjectRef) -> (call: NativeCall)
    requires
        (CallView { entry, table, object, args: seq![] }).conforms(),
    ensures
        call@ == (CallView { entry, table, object, args: seq![] }),
{
    let args: Vec<NativeArg> = Vec::new();
    assert(arg_views(args@) =~= seq![]);
    NativeCall::new(entry, table, object, args)
}

/// A call with one declared argument.
fn call_with_one(entry: Entry, table: TableRef, object: ObjectRef, first: NativeArg) -> (call:
    NativeCall)
    requires
        (CallView { entry, table, object, args: seq![first@] }).conforms(),
    ensures
        call@ == (CallView { entry, table, object, args: seq![first@] }),
{
    let mut args: Vec<NativeArg> = Vec::new();
    args.push(first);
    assert(arg_views(args@) =~= seq![first@]);
    NativeCall::new(entry, table, object, args)
}

/// A call with two declared arguments.
fn call_with_two(
    entry: Entry,
    table: TableRef,
    object: ObjectRef,
    first: NativeArg,
    second: NativeArg,
) -> (call: NativeCall)
    requires
        (CallView { entry, table, object, args: seq![first@, second@] }).conforms(),
    ensures
        call@ == (CallView { entry, table, object, args: seq![first@, second@] }),
{
    let mut args: Vec<NativeArg> = Vec::new();
    args.push(first);
    args.push(second);
    assert(arg_views(args@) =~= seq![first@, second@]);
    NativeCall::new(entry, table, object, args)
}

/// The application object of the native toolkit.
#[derive(Clone, Copy, Debug, PartialEq, Eq)]
pub struct Application {
    funcs: TableRef,
    obj: ObjectRef,
}

impl Application {
    /// Neither address is null.
    #[verifier::type_invariant]
    pub closed spec fn is_bound(&self) -> bool {
        !self.funcs.is_null() && !self.obj.is_null()
    }

    pub closed spec fn spec_new(funcs: TableRef, obj: ObjectRef) -> Application {
        Application { funcs, obj }
    }

    pub closed spec fn spec_get_funcs(&self) -> TableRef {
        self.funcs
    }

    pub closed spec fn spec_get_obj(&self) -> ObjectRef {
        self.obj
    }

    /// Binds the application object at `obj` to its table at `funcs`.
    /// Nothing is checked of the two addresses but that they are not null.
    #[verifier::when_used_as_spec(spec_new)]
    pub fn new(funcs: TableRef, obj: ObjectRef) -> (handle: Application)
        requires
            !funcs.is_null(),
            !obj.is_null(),
        ensures
            handle == Application::spec_new(funcs, obj),
            handle.get_funcs() == funcs,
            handle.get_obj() == obj,
    {
        Application { funcs, obj }
    }

    /// The table this handle was made with.
    #[verifier::when_used_as_spec(spec_get_funcs)]
    pub fn get_funcs(&self) -> (funcs: TableRef)
        ensures
            funcs == self.spec_get_funcs(),
            !funcs.is_null(),
    {
        proof {
            use_type_invariant(self);
        }
        self.funcs
    }

    /// The object this handle was made with.
    #[verifier::when_used_as_spec(spec_get_obj)]
    pub fn get_obj(&self) -> (obj: ObjectRef)
        ensures
            obj == self.spec_get_obj(),
            !obj.is_null(),
    {
        proof {
            use_type_invariant(self);
        }
        self.obj
    }

    /// The call that runs the application. Its result is a signed integer
    /// that comes back as the native side gave it.
    pub fn run(&self) -> (call: NativeCall)
        ensures
            call@ == (CallView {
                entry: Entry::ApplicationRun,
                table: self.get_funcs(),
                object: self.get_obj(),
                args: seq![],
            }),
            call@.conforms(),
    {
        proof {
            use_type_invariant(self);
        }
        call_with_none(Entry::ApplicationRun, self.funcs, self.obj)
    }
}

/// A top-level window.
#[derive(Clone, Copy, Debug, PartialEq, Eq)]
pub struct Window {
    funcs: TableRef,
    obj: ObjectRef,
}

impl Window {
    /// Neither address is null.
    #[verifier::type_invariant]
    pub closed spec fn is_bound(&self) -> bool {
        !self.funcs.is_null() && !self.obj.is_null()
    }

    pub closed spec fn spec_new(funcs: TableRef, obj: ObjectRef) -> Window {
        Window { funcs, obj }
    }

    pub closed spec fn spec_get_funcs(&self) -> TableRef {
        self.funcs
    }

    pub closed spec fn spec_get_obj(&self) -> ObjectRef {
        self.obj
    }

    /// Binds the window at `obj` to its table at `funcs`. Nothing is checked
    /// of the two addresses but that they are not null.
    #[verifier::when_used_as_spec(spec_new)]
    pub fn new(funcs: TableRef, obj: ObjectRef) -> (handle: Window)
        requires
            !funcs.is_null(),
            !obj.is_null(),
        ensures
            handle == Window::spec_new(funcs, obj),
            handle.get_funcs() == funcs,
            handle.get_obj() == obj,
    {
        Window { funcs, obj }
    }

    /// The table this handle was made with.
    #[verifier::when_used_as_spec(spec_get_funcs)]
    pub fn get_funcs(&self) -> (funcs: TableRef)
        ensures
            funcs == self.spec_get_funcs(),
            !funcs.is_null(),
    {
        proof {
            use_type_invariant(self);
        }
        self.funcs
    }

    /// The object this handle was made with.
    #[verifier::when_used_as_spec(spec_get_obj)]
    pub fn get_obj(&self) -> (obj: ObjectRef)
        ensures
            obj == self.spec_get_obj(),
            !obj.is_null(),
    {
        proof {
            use_type_invariant(self);
        }
        self.obj
    }

    /// The call that sets the window's title to `name`.
    ///
    /// Where no character of `name` is NUL, the call carries the bytes of
    /// `name` followed by one terminator and nothing else. Where one is,
    /// there is no call: the error tells where among the bytes of `name` the
    /// first terminator stands.
    pub fn set_title(&self, name: &str) -> (r: Result<NativeCall, MarshalError>)
        ensures
            match r {
                Ok(call) => {
                    &&& !has_terminator(name.spec_bytes())
                    &&& call@ == (CallView {
                        entry: Entry::WindowSetTitle,
                        table: self.get_funcs(),
                        object: self.get_obj(),
                        args: seq![ArgView::Text(terminated(name.spec_bytes()))],
                    })
                    &&& call@.conforms()
                },
                Err(MarshalError::EmbeddedTerminator { at }) => first_terminator_at(
                    name.spec_bytes(),
                    at as int,
                ),
            },
            r is Err <==> name@.contains('\0'),
    {
        proof {
            use_type_invariant(self);
        }
        match marshal_text(name) {
            Ok(buf) => {
                proof {
                    lemma_terminated_reads_back(name.spec_bytes());
                }
                Ok(call_with_one(Entry::WindowSetTitle, self.funcs, self.obj, NativeArg::Text(buf)))
            },
            Err(e) => Err(e),
        }
    }
}

/// A push button.
#[derive(Clone, Copy, Debug, PartialEq, Eq)]
pub struct PushButton {
    funcs: TableRef,
    obj: ObjectRef,
}

impl PushButton {
    /// Neither address is null.
    #[verifier::type_invariant]
    pub closed spec fn is_bound(&self) -> bool {
        !self.funcs.is_null() && !self.obj.is_null()
    }

    pub closed spec fn spec_new(funcs: TableRef, obj: ObjectRef) -> PushButton {
        PushButton { funcs, obj }
    }

    pub closed spec fn spec_get_funcs(&self) -> TableRef {
        self.funcs
    }

    pub closed spec fn spec_get_obj(&self) -> ObjectRef {
        self.obj
    }

    /// Binds the button at `obj` to its table at `funcs`. Nothing is checked
    /// of the two addresses but that they are not null.
    #[verifier::when_used_as_spec(spec_new)]
    pub fn new(funcs: TableRef, obj: ObjectRef) -> (handle: PushButton)
        requires
            !funcs.is_null(),
            !obj.is_null(),
        ensures
            handle == PushButton::spec_new(funcs, obj),
            handle.get_funcs() == funcs,
            handle.get_obj() == obj,
    {
        PushButton { funcs, obj }
    }

    /// The table this handle was made with.
    #[verifier::when_used_as_spec(spec_get_funcs)]
    pub fn get_funcs(&self) -> (funcs: TableRef)
        ensures
            funcs == self.spec_get_funcs(),
            !funcs.is_null(),
    {
        proof {
            use_type_invariant(self);
        }
        self.funcs
    }

    /// The object this handle was made with.
    #[verifier::when_used_as_spec(spec_get_obj)]
    pub fn get_obj(&self) -> (obj: ObjectRef)
        ensures
            obj == self.spec_get_obj(),
            !obj.is_null(),
    {
        proof {
            use_type_invariant(self);
        }
        self.obj
    }

    /// The call that sets whether the button is the default one. `state`
    /// crosses unchanged.
    pub fn set_default(&self, state: i32) -> (call: NativeCall)
        ensures
            call@ == (CallView {
                entry: Entry::PushButtonSetDefault,
                table: self.get_funcs(),
                object: self.get_obj(),
                args: seq![ArgView::Int(state)],
            }),
            call@.conforms(),
    {
        proof {
            use_type_invariant(self);
        }
        call_with_one(Entry::PushButtonSetDefault, self.funcs, self.obj, NativeArg::Int(state))
    }
}

/// A dockable panel that holds one other widget.
#[derive(Clone, Copy, Debug, PartialEq, Eq)]
pub struct DockWidget {
    funcs: TableRef,
    obj: ObjectRef,
}

impl DockWidget {
    /// Neither address is null.
    #[verifier::type_invariant]
    pub closed spec fn is_bound(&self) -> bool {
        !self.funcs.is_null() && !self.obj.is_null()
    }

    pub closed spec fn spec_new(funcs: TableRef, obj: ObjectRef) -> DockWidget {
        DockWidget { funcs, obj }
    }

    pub closed spec fn spec_get_funcs(&self) -> TableRef {
        self.funcs
    }

    pub closed spec fn spec_get_obj(&self) -> ObjectRef {
        self.obj
    }

    /// Binds the dock widget at `obj` to its table at `funcs`. Nothing is
    /// checked of the two addresses but that they are not null.
    #[verifier::when_used_as_spec(spec_new)]
    pub fn new(funcs: TableRef, obj: ObjectRef) -> (handle: DockWidget)
        requires
            !funcs.is_null(),
            !obj.is_null(),
        ensures
            handle == DockWidget::spec_new(funcs, obj),
            handle.get_funcs() == funcs,
            handle.get_obj() == obj,
    {
        DockWidget { funcs, obj }
    }

    /// The table this handle was made with.
    #[verifier::when_used_as_spec(spec_get_funcs)]
    pub fn get_funcs(&self) -> (funcs: TableRef)
        ensures
            funcs == self.spec_get_funcs(),
            !funcs.is_null(),
    {
        proof {
            use_type_invariant(self);
        }
        self.funcs
    }

    /// The object this handle was made with.
    #[verifier::when_used_as_spec(spec_get_obj)]
    pub fn get_obj(&self) -> (obj: ObjectRef)
        ensures
            obj == self.spec_get_obj(),
            !obj.is_null(),
    {
        proof {
            use_type_invariant(self);
        }
        self.obj
    }

    /// The call that asks whether the dock widget floats. Its result is a
    /// boolean byte, to be read with [`crate::marshal::decode_bool`].
    pub fn is_floating(&self) -> (call: NativeCall)
        ensures
            call@ == (CallView {
                entry: Entry::DockWidgetIsFloating,
                table: self.get_funcs(),
                object: self.get_obj(),
                args: seq![],
            }),
            call@.conforms(),
    {
        proof {
            use_type_invariant(self);
        }
        call_with_none(Entry::DockWidgetIsFloating, self.funcs, self.obj)
    }

    /// The call that makes the dock widget float or not. `floating` crosses
    /// as one byte: `1` for true, `0` for false.
    pub fn set_floating(&self, floating: bool) -> (call: NativeCall)
        ensures
            call@ == (CallView {
                entry: Entry::DockWidgetSetFloating,
                table: self.get_funcs(),
                object: self.get_obj(),
                args: seq![ArgView::Bool(encode_bool(floating))],
            }),
            call@.conforms(),
    {
        proof {
            use_type_invariant(self);
        }
        call_with_one(
            Entry::DockWidgetSetFloating,
            self.funcs,
            self.obj,
            NativeArg::Bool(encode_bool(floating)),
        )
    }

    /// The call that puts a widget inside the dock widget. Any kind of
    /// widget will do: `widget` is the object reference that its handle
    /// gives out, and it crosses unchanged.
    pub fn set_widget(&self, widget: ObjectRef) -> (call: NativeCall)
        ensures
            call@ == (CallView {
                entry: Entry::DockWidgetSetWidget,
                table: self.get_funcs(),
                object: self.get_obj(),
                args: seq![ArgView::Object(widget)],
            }),
            call@.conforms(),
    {
        proof {
            use_type_invariant(self);
        }
        call_with_one(Entry::DockWidgetSetWidget, self.funcs, self.obj, NativeArg::Object(widget))
    }
}

/// A main window, which dock widgets can be added to.
#[derive(Clone, Copy, Debug, PartialEq, Eq)]
pub struct MainWindow {
    funcs: TableRef,
    obj: ObjectRef,
}

impl MainWindow {
    /// Neither address is null.
    #[verifier::type_invariant]
    pub closed spec fn is_bound(&self) -> bool {
        !self.funcs.is_null() && !self.obj.is_null()
    }

    pub closed spec fn spec_new(funcs: TableRef, obj: ObjectRef) -> MainWindow {
        MainWindow { funcs, obj }
    }

    pub closed spec fn spec_get_funcs(&self) -> TableRef {
        self.funcs
    }

    pub closed spec fn spec_get_obj(&self) -> ObjectRef {
        self.obj
    }

    /// Binds the main window at `obj` to its table at `funcs`. Nothing is
    /// checked of the two addresses but that they are not null.
    #[verifier::when_used_as_spec(spec_new)]
    pub fn new(funcs: TableRef, obj: ObjectRef) -> (handle: MainWindow)
        requires
            !funcs.is_null(),
            !obj.is_null(),
        ensures
            handle == MainWindow::spec_new(funcs, obj),
            handle.get_funcs() == funcs,
            handle.get_obj() == obj,
    {
        MainWindow { funcs, obj }
    }

    /// The table this handle was made with.
    #[verifier::when_used_as_spec(spec_get_funcs)]
    pub fn get_funcs(&self) -> (funcs: TableRef)
        ensures
            funcs == self.spec_get_funcs(),
            !funcs.is_null(),
    {
        proof {
            use_type_invariant(self);
        }
        self.funcs
    }

    /// The object this handle was made with.
    #[verifier::when_used_as_spec(spec_get_obj)]
    pub fn get_obj(&self) -> (obj: ObjectRef)
        ensures
            obj == self.spec_get_obj(),
            !obj.is_null(),
    {
        proof {
            use_type_invariant(self);
        }
        self.obj
    }

    /// The call that docks `widget` in the given area of the main window.
    /// The native entry receives the main window's object, then `area`
    /// unchanged, then the dock widget's object; the dock widget's table
    /// does not cross.
    pub fn add_dock_widget(&self, area: u32, widget: &DockWidget) -> (call: NativeCall)
        ensures
            call@ == (CallView {
                entry: Entry::MainWindowAddDockWidget,
                table: self.get_funcs(),
                object: self.get_obj(),
                args: seq![ArgView::UInt(area), ArgView::Object(widget.get_obj())],
            }),
            call@.native_args() == seq![
                ArgView::Object(self.get_obj()),
                ArgView::UInt(area),
                ArgView::Object(widget.get_obj()),
            ],
            call@.conforms(),
    {
        proof {
            use_type_invariant(self);
        }
        let call = call_with_two(
            Entry::MainWindowAddDockWidget,
            self.funcs,
            self.obj,
            NativeArg::UInt(area),
            NativeArg::Object(widget.get_obj()),
        );
        assert(call@.native_args() =~= seq![
            ArgView::Object(self.obj),
            ArgView::UInt(area),
            ArgView::Object(widget.get_obj()),
        ]);
        call
    }
}

/// A handle gives out the object and the table it was made with, whatever
/// its kind.
pub proof fn lemma_accessor_identity(funcs: TableRef, obj: ObjectRef)
    ensures
        Application::new(funcs, obj).get_obj() == obj,
        Application::new(funcs, obj).get_funcs() == funcs,
        Window::new(funcs, obj).get_obj() == obj,
        Window::new(funcs, obj).get_funcs() == funcs,
        PushButton::new(funcs, obj).get_obj() == obj,
        PushButton::new(funcs, obj).get_funcs() == funcs,
        MainWindow::new(funcs, obj).get_obj() == obj,
        MainWindow::new(funcs, obj).get_funcs() == funcs,
        DockWidget::new(funcs, obj).get_obj() == obj,
        DockWidget::new(funcs, obj).get_funcs() == funcs,
{
}

} // verus!
