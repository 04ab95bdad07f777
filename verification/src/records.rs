use vstd::prelude::*;

verus! {

/// One parameter of a function or constructor.
#[derive(Debug, PartialEq, Eq)]
pub struct Param {
    pub name: String,
    pub ty: String,
    pub desc: String,
}

/// What a function returns.
#[derive(Debug, PartialEq, Eq)]
pub struct Return {
    pub ty: String,
    pub desc: String,
}

/// A named field of a class. A member without an assignability flag is not
/// documented yet.
#[derive(Debug, PartialEq, Eq)]
pub struct Member {
    pub name: String,
    pub assignable: Option<bool>,
    pub desc: Option<Vec<String>>,
    pub ty: Option<String>,
    pub examples: Option<Vec<String>>,
}

/// A way to instantiate a class.
#[derive(Debug, PartialEq, Eq)]
pub struct Constructor {
    pub desc: Vec<String>,
    pub params: Option<Vec<Param>>,
    pub examples: Vec<String>,
}

/// A method, a static method or an extension function. A function without
/// examples is not documented yet.
#[derive(Debug, PartialEq, Eq)]
pub struct Function {
    pub name: String,
    pub deprecated: Option<Vec<String>>,
    pub desc: Option<Vec<String>>,
    pub params: Option<Vec<Param>>,
    pub ret: Option<Return>,
    pub throws: Option<Vec<String>>,
    pub examples: Option<Vec<String>>,
}

/// One documented type of the standard library.
#[derive(Debug, PartialEq, Eq)]
pub struct Class {
    pub name: String,
    pub desc: Option<Vec<String>>,
    pub import_path: Option<String>,
    pub static_members: Option<Vec<Member>>,
    pub members: Option<Vec<Member>>,
    pub constructors: Option<Vec<Constructor>>,
    pub methods: Option<Vec<Function>>,
    pub static_methods: Option<Vec<Function>>,
}

/// What a `Param` holds.
pub struct ParamView {
    pub name: Seq<char>,
    pub ty: Seq<char>,
    pub desc: Seq<char>,
}

/// What a `Return` holds.
pub struct ReturnView {
    pub ty: Seq<char>,
    pub desc: Seq<char>,
}

/// What a `Member` holds.
pub struct MemberView {
    pub name: Seq<char>,
    pub assignable: Option<bool>,
    pub desc: Option<Seq<Seq<char>>>,
    pub ty: Option<Seq<char>>,
    pub examples: Option<Seq<Seq<char>>>,
}

/// What a `Constructor` holds.
pub struct ConstructorView {
    pub desc: Seq<Seq<char>>,
    pub params: Option<Seq<ParamView>>,
    pub examples: Seq<Seq<char>>,
}

/// What a `Function` holds.
pub struct FunctionView {
    pub name: Seq<char>,
    pub deprecated: Option<Seq<Seq<char>>>,
    pub desc: Option<Seq<Seq<char>>>,
    pub params: Option<Seq<ParamView>>,
    pub ret: Option<ReturnView>,
    pub throws: Option<Seq<Seq<char>>>,
    pub examples: Option<Seq<Seq<char>>>,
}

/// What a `Class` holds.
pub struct ClassView {
    pub name: Seq<char>,
    pub desc: Option<Seq<Seq<char>>>,
    pub import_path: Option<Seq<char>>,
    pub static_members: Option<Seq<MemberView>>,
    pub members: Option<Seq<MemberView>>,
    pub constructors: Option<Seq<ConstructorView>>,
    pub methods: Option<Seq<FunctionView>>,
    pub static_methods: Option<Seq<FunctionView>>,
}

impl DeepView for Param {
    type V = ParamView;

    open spec fn deep_view(&self) -> ParamView {
        ParamView { name: self.name@, ty: self.ty@, desc: self.desc@ }
    }
}

impl DeepView for Return {
    type V = ReturnView;

    open spec fn deep_view(&self) -> ReturnView {
        ReturnView { ty: self.ty@, desc: self.desc@ }
    }
}

impl DeepView for Member {
    type V = MemberView;

    open spec fn deep_view(&self) -> MemberView {
        MemberView {
            name: self.name@,
            assignable: self.assignable,
            desc: self.desc.deep_view(),
            ty: self.ty.deep_view(),
            examples: self.examples.deep_view(),
        }
    }
}

impl DeepView for Constructor {
    type V = ConstructorView;

    open spec fn deep_view(&self) -> ConstructorView {
        ConstructorView {
            desc: self.desc.deep_view(),
            params: self.params.deep_view(),
            examples: self.examples.deep_view(),
        }
    }
}

impl DeepView for Function {
    type V = FunctionView;

    open spec fn deep_view(&self) -> FunctionView {
        FunctionView {
            name: self.name@,
            deprecated: self.deprecated.deep_view(),
            desc: self.desc.deep_view(),
            params: self.params.deep_view(),
            ret: self.ret.deep_view(),
            throws: self.throws.deep_view(),
            examples: self.examples.deep_view(),
        }
    }
}

impl DeepView for Class {
    type V = ClassView;

    open spec fn deep_view(&self) -> ClassView {
        ClassView {
            name: self.name@,
            desc: self.desc.deep_view(),
            import_path: self.import_path.deep_view(),
            static_members: self.static_members.deep_view(),
            members: self.members.deep_view(),
            constructors: self.constructors.deep_view(),
            methods: self.methods.deep_view(),
            static_methods: self.static_methods.deep_view(),
        }
    }
}

impl View for Param {
    type V = ParamView;

    open spec fn view(&self) -> ParamView {
        self.deep_view()
    }
}

impl View for Return {
    type V = ReturnView;

    open spec fn view(&self) -> ReturnView {
        self.deep_view()
    }
}

impl View for Member {
    type V = MemberView;

    open spec fn view(&self) -> MemberView {
        self.deep_view()
    }
}

impl View for Constructor {
    type V = ConstructorView;

    open spec fn view(&self) -> ConstructorView {
        self.deep_view()
    }
}

impl View for Function {
    type V = FunctionView;

    open spec fn view(&self) -> FunctionView {
        self.deep_view()
    }
}

impl View for Class {
    type V = ClassView;

    open spec fn view(&self) -> ClassView {
        self.deep_view()
    }
}

/// The items of an optional list; an absent list has none.
pub open spec fn present<T>(list: Option<Seq<T>>) -> Seq<T> {
    match list {
        Some(items) => items,
        None => Seq::empty(),
    }
}

impl FunctionView {
    /// A function counts as documented once it has at least one example.
    pub open spec fn documented(self) -> bool {
        present(self.examples).len() > 0
    }

    /// A documented function can be rendered only with a description.
    pub open spec fn renderable(self) -> bool {
        self.documented() ==> self.desc is Some
    }
}

/// Every documented function of the list has a description.
pub open spec fn functions_renderable(fs: Seq<FunctionView>) -> bool {
    forall|i: int| 0 <= i < fs.len() ==> (#[trigger] fs[i]).renderable()
}

impl MemberView {
    /// A member counts as documented once it says whether it is assignable.
    pub open spec fn documented(self) -> bool {
        self.assignable is Some
    }

    /// A documented member needs a description, a type and examples.
    pub open spec fn renderable(self) -> bool {
        self.documented() ==> self.desc is Some && self.ty is Some && self.examples is Some
    }
}

/// Every documented member of the list has description, type and examples.
pub open spec fn members_renderable(ms: Seq<MemberView>) -> bool {
    forall|i: int| 0 <= i < ms.len() ==> (#[trigger] ms[i]).renderable()
}

impl ClassView {
    /// Every documented member and function of the class has what its
    /// rendering needs.
    pub open spec fn renderable(self) -> bool {
        &&& members_renderable(present(self.static_members))
        &&& members_renderable(present(self.members))
        &&& functions_renderable(present(self.methods))
        &&& functions_renderable(present(self.static_methods))
    }
}

impl Function {
    /// Whether the function has at least one example.
    pub fn is_documented(&self) -> (r: bool)
        ensures
            r == self@.documented(),
    {
        match &self.examples {
            Some(examples) => examples.len() > 0,
            None => false,
        }
    }
}

impl Member {
    /// Whether the member says if it is assignable.
    pub fn is_documented(&self) -> (r: bool)
        ensures
            r == self@.documented(),
    {
        self.assignable.is_some()
    }
}

} // verus!
