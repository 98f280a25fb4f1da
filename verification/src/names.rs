//! The names of all the items of the generated code.
use vstd::prelude::*;
use crate::model::FuncType;
use crate::text::cat;

verus! {

/// A generator of all types of names for the generated code. An instance is held by each kind
/// of item: modules, functions or methods, and objects.
#[derive(Debug)]
pub struct Names {
    /// Name of the user's `mod`
    module: String,
    /// In case this is an object, its name
    object: Option<String>,
    /// In case this is a function, its kind and name
    function: Option<(FuncType, String)>,
}

/// The name that a function of the given kind has in the C interface: constructors and
/// destructors have fixed names.
pub open spec fn spec_c_fn_name(t: FuncType, name: Seq<char>) -> Seq<char> {
    match t {
        FuncType::Constructor => "_init"@,
        FuncType::Destructor => "_fini"@,
        _ => name,
    }
}

/// The code that calls a function of kind `func`, named `name`, of the object `object` (if
/// any): through the object's path for a constructor, on the object for a method, and through
/// the parent module otherwise.
pub open spec fn spec_callable(func: FuncType, object: Option<Seq<char>>, name: Seq<char>) -> Seq<char> {
    match func {
        FuncType::Constructor => "super::"@ + object.unwrap() + "::"@ + name,
        FuncType::Method => "__obj."@ + name,
        _ => "super::"@ + name,
    }
}

impl Names {
    pub closed spec fn spec_module(&self) -> Seq<char> {
        self.module@
    }

    pub closed spec fn spec_object(&self) -> Option<Seq<char>> {
        match self.object {
            Some(o) => Some(o@),
            None => None,
        }
    }

    pub closed spec fn spec_function(&self) -> Option<(FuncType, Seq<char>)> {
        match self.function {
            Some((t, n)) => Some((t, n@)),
            None => None,
        }
    }

    /// `"_"` and the object's name for an object, empty for a free function.
    pub open spec fn spec_obj_parts(&self) -> Seq<char> {
        match self.spec_object() {
            Some(o) => "_"@ + o,
            None => Seq::empty(),
        }
    }

    /// The name of the function in the C interface.
    pub open spec fn spec_fn_name(&self) -> Seq<char>
        recommends
            self.spec_function() is Some,
    {
        spec_c_fn_name(self.spec_function().unwrap().0, self.spec_function().unwrap().1)
    }

    pub fn new(mod_name: &str) -> (r: Self)
        ensures
            r.spec_module() == mod_name@,
            r.spec_object() is None,
            r.spec_function() is None,
    {
        Names { module: mod_name.to_owned(), object: None, function: None }
    }

    pub fn to_obj(&self, obj_name: &str) -> (r: Self)
        requires
            self.spec_object() is None,
            self.spec_function() is None,
        ensures
            r.spec_module() == self.spec_module(),
            r.spec_object() == Some(obj_name@),
            r.spec_function() is None,
    {
        Names { module: self.module.clone(), object: Some(obj_name.to_owned()), function: None }
    }

    pub fn to_func(&self, func_type: FuncType, fn_name: &str) -> (r: Self)
        requires
            self.spec_function() is None,
        ensures
            r.spec_module() == self.spec_module(),
            r.spec_object() == self.spec_object(),
            r.spec_function() == Some((func_type, fn_name@)),
    {
        let object = match &self.object {
            Some(o) => Some(o.clone()),
            None => None,
        };
        Names {
            module: self.module.clone(),
            object,
            function: Some((func_type, fn_name.to_owned())),
        }
    }

    pub fn mod_name(&self) -> (r: &str)
        ensures
            r@ == self.spec_module(),
    {
        self.module.as_str()
    }

    pub fn obj_name(&self) -> (r: &str)
        requires
            self.spec_object() is Some,
        ensures
            r@ == self.spec_object().unwrap(),
    {
        match &self.object {
            Some(o) => o.as_str(),
            None => "",
        }
    }

    pub fn fn_name(&self) -> (r: &str)
        requires
            self.spec_function() is Some,
        ensures
            r@ == self.spec_fn_name(),
    {
        match &self.function {
            Some((FuncType::Constructor, _)) => "_init",
            Some((FuncType::Destructor, _)) => "_fini",
            Some((_, name)) => name.as_str(),
            None => "",
        }
    }

    pub fn fn_name_user(&self) -> (r: &str)
        requires
            self.spec_function() is Some,
        ensures
            r@ == self.spec_function().unwrap().1,
    {
        match &self.function {
            Some((_, name)) => name.as_str(),
            None => "",
        }
    }

    /// The code that calls the user's function, of kind `func`.
    pub fn fn_callable_name(&self, func: FuncType) -> (r: String)
        requires
            self.spec_function() is Some,
            func is Constructor ==> self.spec_object() is Some,
        ensures
            r@ == spec_callable(func, self.spec_object(), self.spec_function().unwrap().1),
    {
        let name = self.fn_name_user();
        match func {
            FuncType::Constructor => {
                let a = self.obj_access();
                let b = cat(a.as_str(), "::");
                cat(b.as_str(), name)
            },
            FuncType::Method => cat("__obj.", name),
            _ => cat("super::", name),
        }
    }

    /// The path of the object as reached from the generated module.
    pub fn obj_access(&self) -> (r: String)
        requires
            self.spec_object() is Some,
        ensures
            r@ == "super::"@ + self.spec_object().unwrap(),
    {
        cat("super::", self.obj_name())
    }

    pub fn func_struct_name(&self) -> (r: String)
        ensures
            r@ == "Vmod_vmod_"@ + self.spec_module() + "_Func"@,
    {
        let a = cat("Vmod_vmod_", self.module.as_str());
        cat(a.as_str(), "_Func")
    }

    pub fn data_struct_name(&self) -> (r: String)
        ensures
            r@ == "Vmod_"@ + self.spec_module() + "_Data"@,
    {
        let a = cat("Vmod_", self.module.as_str());
        cat(a.as_str(), "_Data")
    }

    pub fn struct_obj_name(&self) -> (r: String)
        requires
            self.spec_object() is Some,
        ensures
            r@ == "struct vmod_"@ + self.spec_module() + "_"@ + self.spec_object().unwrap(),
    {
        let a = cat("struct vmod_", self.module.as_str());
        let b = cat(a.as_str(), "_");
        cat(b.as_str(), self.obj_name())
    }

    pub fn wrapper_fn_name(&self) -> (r: String)
        requires
            self.spec_function() is Some,
        ensures
            r@ == "vmod_c"@ + self.spec_obj_parts() + "_"@ + self.spec_fn_name(),
    {
        let parts = self.obj_name_parts();
        let a = cat("vmod_c", parts.as_str());
        let b = cat(a.as_str(), "_");
        cat(b.as_str(), self.fn_name())
    }

    pub fn arg_struct_name(&self) -> (r: String)
        requires
            self.spec_function() is Some,
        ensures
            r@ == "arg_vmod_"@ + self.spec_module() + self.spec_obj_parts() + "_"@
                + self.spec_fn_name(),
    {
        let parts = self.obj_name_parts();
        let a = cat("arg_vmod_", self.module.as_str());
        let b = cat(a.as_str(), parts.as_str());
        let c = cat(b.as_str(), "_");
        cat(c.as_str(), self.fn_name())
    }

    pub fn typedef_name(&self) -> (r: String)
        requires
            self.spec_function() is Some,
        ensures
            r@ == "td_vmod_"@ + self.spec_module() + self.spec_obj_parts() + "_"@
                + self.spec_fn_name(),
    {
        let parts = self.obj_name_parts();
        let a = cat("td_vmod_", self.module.as_str());
        let b = cat(a.as_str(), parts.as_str());
        let c = cat(b.as_str(), "_");
        cat(c.as_str(), self.fn_name())
    }

    pub fn f_fn_name(&self) -> (r: String)
        requires
            self.spec_function() is Some,
        ensures
            r@ == "f"@ + self.spec_obj_parts() + "_"@ + self.spec_fn_name(),
    {
        let parts = self.obj_name_parts();
        let a = cat("f", parts.as_str());
        let b = cat(a.as_str(), "_");
        cat(b.as_str(), self.fn_name())
    }

    /// `"_"` and the object's name for an object, empty otherwise.
    fn obj_name_parts(&self) -> (r: String)
        ensures
            r@ == self.spec_obj_parts(),
    {
        match &self.object {
            Some(o) => cat("_", o.as_str()),
            None => String::new(),
        }
    }
}

} // verus!
