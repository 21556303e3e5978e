//! The class model: the methods and constructors of one bridged native
//! type, the driver that renders all its bridge functions, and the driver
//! that renders its Java declaration file.
use vstd::prelude::*;

verus! {

use vstd::string::StrSliceExecFns;
use vstd::string::StringExecFns;
use crate::errors::{ClassificationError, ClassificationErrorV};
use crate::java_method::{
    JavaMethod,
    JavaMethodV,
    spec_args_imports,
    spec_as_constructor,
    spec_as_declaration,
    spec_as_jni_method,
    spec_comment_or_empty,
    spec_drop_method_v,
    spec_from_sig,
    spec_hash_method_v,
};
use crate::signature::{BindgenAttrs, FnSig, FnSigV};
use crate::traits::AsDeclaration;

/// A class grouped for generation: its constructors are kept apart from its
/// methods, and both drive the two emitters in lock-step.
#[derive(Debug)]
pub struct JavaClass {
    pub name: String,
    pub methods: Vec<JavaMethod>,
    pub constructors: Vec<JavaMethod>,
    pub namespace: String,
    pub load_lib: Option<String>,
    pub doc_lines: Vec<String>,
}

pub struct JavaClassV {
    pub name: Seq<char>,
    pub methods: Seq<JavaMethodV>,
    pub constructors: Seq<JavaMethodV>,
    pub namespace: Seq<char>,
    pub load_lib: Option<Seq<char>>,
    pub doc_lines: Seq<Seq<char>>,
}

impl View for JavaClass {
    type V = JavaClassV;

    open spec fn view(&self) -> JavaClassV {
        JavaClassV {
            name: self.name@,
            methods: self.methods@.map_values(|m: JavaMethod| m@),
            constructors: self.constructors@.map_values(|m: JavaMethod| m@),
            namespace: self.namespace@,
            load_lib: match self.load_lib {
                Some(ref l) => Some(l@),
                None => None,
            },
            doc_lines: self.doc_lines@.map_values(|l: String| l@),
        }
    }
}

/// The models of the annotated items with the given constructor flag, built
/// in declaration order; the first failing signature aborts the group.
pub open spec fn spec_build_group(items: Seq<FnSigV>, want_ctor: bool) -> Result<
    Seq<JavaMethodV>,
    ClassificationErrorV,
>
    decreases items.len(),
{
    if items.len() == 0 {
        Ok(Seq::empty())
    } else {
        match spec_build_group(items.drop_last(), want_ctor) {
            Err(e) => Err(e),
            Ok(rest) => {
                let it = items.last();
                if it.has_jni && it.constructor == want_ctor {
                    match spec_from_sig(it) {
                        Ok(m) => Ok(rest.push(m)),
                        Err(e) => Err(e),
                    }
                } else {
                    Ok(rest)
                }
            },
        }
    }
}

proof fn lemma_build_group_err(items: Seq<FnSigV>, want_ctor: bool, j: int)
    requires
        0 <= j <= items.len(),
        spec_build_group(items.take(j), want_ctor) is Err,
    ensures
        spec_build_group(items, want_ctor) == spec_build_group(items.take(j), want_ctor),
    decreases items.len() - j,
{
    if j == items.len() {
        assert(items.take(j) =~= items);
    } else {
        assert(items.take(j + 1).drop_last() =~= items.take(j));
        lemma_build_group_err(items, want_ctor, j + 1);
    }
}

/// The bridge functions of a method group, in order; the first failing
/// method aborts the group.
pub open spec fn spec_bridges(
    ms: Seq<JavaMethodV>,
    base_name: Seq<char>,
    struct_name: Seq<char>,
) -> Result<Seq<Seq<char>>, ClassificationErrorV>
    decreases ms.len(),
{
    if ms.len() == 0 {
        Ok(Seq::empty())
    } else {
        match spec_bridges(ms.drop_last(), base_name, struct_name) {
            Err(e) => Err(e),
            Ok(rest) => match spec_as_jni_method(ms.last(), base_name, struct_name) {
                Ok(b) => Ok(rest.push(b)),
                Err(e) => Err(e),
            },
        }
    }
}

proof fn lemma_bridges_err(ms: Seq<JavaMethodV>, base: Seq<char>, sn: Seq<char>, j: int)
    requires
        0 <= j <= ms.len(),
        spec_bridges(ms.take(j), base, sn) is Err,
    ensures
        spec_bridges(ms, base, sn) == spec_bridges(ms.take(j), base, sn),
    decreases ms.len() - j,
{
    if j == ms.len() {
        assert(ms.take(j) =~= ms);
    } else {
        assert(ms.take(j + 1).drop_last() =~= ms.take(j));
        lemma_bridges_err(ms, base, sn, j + 1);
    }
}

/// One method's imports folded onto an accumulator: parameters, then return.
pub open spec fn spec_method_imports_acc(m: JavaMethodV, acc: Seq<Seq<char>>) -> Seq<Seq<char>> {
    match m.return_type {
        Some(t) => crate::java_type::spec_imports_acc(t, spec_args_imports(m.args, acc)),
        None => spec_args_imports(m.args, acc),
    }
}

/// A whole group's imports folded onto an accumulator, in order.
pub open spec fn spec_group_imports(ms: Seq<JavaMethodV>, acc: Seq<Seq<char>>) -> Seq<Seq<char>>
    decreases ms.len(),
{
    if ms.len() == 0 {
        acc
    } else {
        spec_method_imports_acc(ms.last(), spec_group_imports(ms.drop_last(), acc))
    }
}

/// The class's imports: its methods' in order, then its constructors'.
pub open spec fn spec_class_imports(c: JavaClassV) -> Seq<Seq<char>> {
    spec_group_imports(c.constructors, spec_group_imports(c.methods, Seq::empty()))
}

/// The Java declaration texts of a group, one per method.
pub open spec fn spec_decl_pieces(
    ms: Seq<JavaMethodV>,
    struct_name: Seq<char>,
    definition: bool,
) -> Seq<Seq<char>>
    decreases ms.len(),
{
    if ms.len() == 0 {
        Seq::empty()
    } else {
        spec_decl_pieces(ms.drop_last(), struct_name, definition).push(
            spec_as_declaration(ms.last(), struct_name, definition),
        )
    }
}

/// The Java constructor texts of a group.
pub open spec fn spec_ctor_pieces(
    ms: Seq<JavaMethodV>,
    class_name: Seq<char>,
    inner: bool,
) -> Seq<Seq<char>>
    decreases ms.len(),
{
    if ms.len() == 0 {
        Seq::empty()
    } else {
        spec_ctor_pieces(ms.drop_last(), class_name, inner).push(
            spec_as_constructor(ms.last(), class_name, inner),
        )
    }
}

/// All bridge functions of a class: one per method, one per constructor, the
/// destructor bridge exactly where the class has a constructor, and the
/// type-hash bridge always.
pub open spec fn spec_class_jni_methods(c: JavaClassV, ns_attr: Option<Seq<char>>) -> Result<
    Seq<char>,
    ClassificationErrorV,
> {
    match ns_attr {
        None => Err(ClassificationErrorV::MissingNamespace),
        Some(ns) => {
            let base = crate::quotes::spec_base_name(
                crate::text::replace_char_seq(ns, '.', '_'),
                c.name,
            );
            match spec_bridges(c.methods, base, c.name) {
                Err(e) => Err(e),
                Ok(mp) => match spec_bridges(c.constructors, base, c.name) {
                    Err(e) => Err(e),
                    Ok(cp) => {
                        let drop_text = if c.constructors.len() > 0 {
                            crate::quotes::spec_drop_struct(base, c.name)
                        } else {
                            Seq::<char>::empty()
                        };
                        Ok(
                            crate::text::join_seq(mp, "\n"@) + "\n"@ + crate::text::join_seq(
                                cp,
                                "\n"@,
                            ) + "\n"@ + drop_text + "\n"@ + crate::quotes::spec_get_type_hash(
                                base,
                                c.name,
                            ),
                        )
                    },
                },
            }
        },
    }
}

/// The whole Java declaration file of a class.
pub open spec fn spec_class_declaration(c: JavaClassV) -> Seq<char> {
    let inner_list = c.methods + (if c.constructors.len() > 0 {
        seq![spec_drop_method_v()]
    } else {
        Seq::empty()
    }) + seq![spec_hash_method_v()] + c.constructors;
    let inner_methods = crate::text::join_seq(spec_decl_pieces(inner_list, c.name, false), "\n\t"@);
    let inner_ctors = crate::text::join_seq(
        spec_ctor_pieces(c.constructors, c.name + "Native"@, true),
        "\n\t"@,
    );
    let inner = crate::code::spec_inner_class(c.name, inner_methods, inner_ctors, c.load_lib);
    let outer_methods = crate::text::join_seq(spec_decl_pieces(c.methods, c.name, true), "\n"@);
    let outer_ctors = crate::text::join_seq(spec_ctor_pieces(c.constructors, c.name, false), "\n"@);
    crate::code::spec_outer_class(
        c.namespace,
        c.name,
        spec_comment_or_empty(c.doc_lines),
        outer_methods,
        outer_ctors,
        inner,
        spec_class_imports(c),
    )
}

impl JavaClass {
    /// Builds the class model from its annotated items: methods and
    /// constructors are partitioned by the constructor flag, never mixed,
    /// and the declaration's attribute bag must name the namespace.
    #[verifier::loop_isolation(false)]
    pub fn from_items(
        name: String,
        doc_lines: Vec<String>,
        items: &Vec<FnSig>,
        args: &BindgenAttrs,
    ) -> (r: Result<JavaClass, ClassificationError>)
        ensures
            r matches Ok(c) ==> {
                &&& spec_build_group(items@.map_values(|s: FnSig| s@), false) matches Ok(ms)
                    && c@.methods == ms
                &&& spec_build_group(items@.map_values(|s: FnSig| s@), true) matches Ok(cs)
                    && c@.constructors == cs
                &&& args.namespace matches Some(n) && c@.namespace == n@
                &&& c@.name == name@
                &&& c@.doc_lines == doc_lines@.map_values(|l: String| l@)
                &&& c@.load_lib == (match args.load_lib {
                    Some(ref l) => Some(l@),
                    None => None,
                })
            },
            r matches Err(e) ==> {
                ||| spec_build_group(items@.map_values(|s: FnSig| s@), false) matches Err(ev)
                    && e@ == ev
                ||| (spec_build_group(items@.map_values(|s: FnSig| s@), false) is Ok && (
                spec_build_group(items@.map_values(|s: FnSig| s@), true) matches Err(ev) && e@
                    == ev))
                ||| (spec_build_group(items@.map_values(|s: FnSig| s@), false) is Ok
                    && spec_build_group(items@.map_values(|s: FnSig| s@), true) is Ok
                    && args.namespace is None && e@
                    == crate::errors::ClassificationErrorV::MissingNamespace)
            },
    {
        let ghost iviews = items@.map_values(|s: FnSig| s@);
        let mut methods: Vec<JavaMethod> = Vec::new();
        let mut i: usize = 0;
        proof {
            assert(spec_build_group(iviews.take(0), false) == Ok::<_, ClassificationErrorV>(
                Seq::<JavaMethodV>::empty(),
            ));
            assert(methods@.map_values(|m: JavaMethod| m@) =~= Seq::<JavaMethodV>::empty());
        }
        while i < items.len()
            invariant
                0 <= i <= items.len(),
                spec_build_group(iviews.take(i as int), false) == Ok::<_, ClassificationErrorV>(
                    methods@.map_values(|m: JavaMethod| m@),
                ),
            decreases items.len() - i,
        {
            proof {
                assert(iviews.take(i + 1 as int).drop_last() =~= iviews.take(i as int));
                assert(iviews.take(i + 1 as int).last() == iviews[i as int]);
            }
            let it = &items[i];
            if it.has_jni && !it.constructor {
                match JavaMethod::from_sig(it) {
                    Ok(m) => {
                        methods.push(m);
                        proof {
                            assert(methods@.map_values(|m: JavaMethod| m@) =~= spec_build_group(
                                iviews.take(i + 1 as int),
                                false,
                            )->Ok_0);
                        }
                    },
                    Err(e) => {
                        proof {
                            lemma_build_group_err(iviews, false, i + 1 as int);
                        }
                        return Err(e);
                    },
                }
            }
            i = i + 1;
        }
        let mut constructors: Vec<JavaMethod> = Vec::new();
        i = 0;
        proof {
            assert(iviews.take(items@.len() as int) =~= iviews);
            assert(spec_build_group(iviews.take(0), true) == Ok::<_, ClassificationErrorV>(
                Seq::<JavaMethodV>::empty(),
            ));
            assert(constructors@.map_values(|m: JavaMethod| m@) =~= Seq::<JavaMethodV>::empty());
        }
        while i < items.len()
            invariant
                0 <= i <= items.len(),
                spec_build_group(iviews.take(i as int), true) == Ok::<_, ClassificationErrorV>(
                    constructors@.map_values(|m: JavaMethod| m@),
                ),
            decreases items.len() - i,
        {
            proof {
                assert(iviews.take(i + 1 as int).drop_last() =~= iviews.take(i as int));
                assert(iviews.take(i + 1 as int).last() == iviews[i as int]);
            }
            let it = &items[i];
            if it.has_jni && it.constructor {
                match JavaMethod::from_sig(it) {
                    Ok(m) => {
                        constructors.push(m);
                        proof {
                            assert(constructors@.map_values(|m: JavaMethod| m@)
                                =~= spec_build_group(iviews.take(i + 1 as int), true)->Ok_0);
                        }
                    },
                    Err(e) => {
                        proof {
                            lemma_build_group_err(iviews, true, i + 1 as int);
                        }
                        return Err(e);
                    },
                }
            }
            i = i + 1;
        }
        let namespace = match args.get_namespace() {
            Ok(n) => n,
            Err(e) => {
                return Err(e);
            },
        };
        let load_lib = match args.load_lib() {
            Some(l) => Some(l.clone()),
            None => None,
        };
        Ok(JavaClass { name, methods, constructors, namespace, load_lib, doc_lines })
    }

    /// Emits every bridge function of this class; the destructor bridge is
    /// present exactly where the class has a constructor, the type-hash
    /// bridge always.
    #[verifier::loop_isolation(false)]
    #[verifier::rlimit(100)]
    #[verifier::spinoff_prover]
    pub fn as_jni_methods(&self, args: &BindgenAttrs) -> (r: Result<String, ClassificationError>)
        ensures
            r matches Ok(s) ==> spec_class_jni_methods(
                self@,
                match args.namespace {
                    Some(ref n) => Some(n@),
                    None => None,
                },
            ) matches Ok(v) && s@ == v,
            r matches Err(e) ==> spec_class_jni_methods(
                self@,
                match args.namespace {
                    Some(ref n) => Some(n@),
                    None => None,
                },
            ) matches Err(ev) && e@ == ev,
    {
        let namespace = match args.get_namespace() {
            Ok(n) => n,
            Err(e) => {
                return Err(e);
            },
        };
        let ns_u = crate::text::replace_char(namespace.as_str(), '.', '_');
        let base = crate::quotes::base_name(ns_u.as_str(), self.name.as_str());
        let ghost mviews = self@.methods;
        let mut m_pieces: Vec<String> = Vec::new();
        let mut i: usize = 0;
        proof {
            assert(spec_bridges(mviews.take(0), base@, self.name@) == Ok::<
                _,
                ClassificationErrorV,
            >(Seq::<Seq<char>>::empty()));
            assert(m_pieces@.map_values(|p: String| p@) =~= Seq::<Seq<char>>::empty());
        }
        while i < self.methods.len()
            invariant
                0 <= i <= self.methods.len(),
                spec_bridges(mviews.take(i as int), base@, self@.name) == Ok::<
                    _,
                    ClassificationErrorV,
                >(m_pieces@.map_values(|p: String| p@)),
            decreases self.methods.len() - i,
        {
            proof {
                assert(mviews.take(i + 1 as int).drop_last() =~= mviews.take(i as int));
                assert(mviews.take(i + 1 as int).last() == mviews[i as int]);
            }
            match self.methods[i].as_jni_method(base.as_str(), self.name.as_str()) {
                Ok(b) => {
                    m_pieces.push(b);
                    proof {
                        assert(m_pieces@.map_values(|p: String| p@) =~= spec_bridges(
                            mviews.take(i + 1 as int),
                            base@,
                            self@.name,
                        )->Ok_0);
                    }
                },
                Err(e) => {
                    proof {
                        lemma_bridges_err(mviews, base@, self@.name, i + 1 as int);
                    }
                    return Err(e);
                },
            }
            i = i + 1;
        }
        let ghost cviews = self@.constructors;
        let mut c_pieces: Vec<String> = Vec::new();
        i = 0;
        proof {
            assert(mviews.take(self.methods@.len() as int) =~= mviews);
            assert(spec_bridges(cviews.take(0), base@, self@.name) == Ok::<
                _,
                ClassificationErrorV,
            >(Seq::<Seq<char>>::empty()));
            assert(c_pieces@.map_values(|p: String| p@) =~= Seq::<Seq<char>>::empty());
        }
        while i < self.constructors.len()
            invariant
                0 <= i <= self.constructors.len(),
                spec_bridges(cviews.take(i as int), base@, self@.name) == Ok::<
                    _,
                    ClassificationErrorV,
                >(c_pieces@.map_values(|p: String| p@)),
            decreases self.constructors.len() - i,
        {
            proof {
                assert(cviews.take(i + 1 as int).drop_last() =~= cviews.take(i as int));
                assert(cviews.take(i + 1 as int).last() == cviews[i as int]);
            }
            match self.constructors[i].as_jni_method(base.as_str(), self.name.as_str()) {
                Ok(b) => {
                    c_pieces.push(b);
                    proof {
                        assert(c_pieces@.map_values(|p: String| p@) =~= spec_bridges(
                            cviews.take(i + 1 as int),
                            base@,
                            self@.name,
                        )->Ok_0);
                    }
                },
                Err(e) => {
                    proof {
                        lemma_bridges_err(cviews, base@, self@.name, i + 1 as int);
                    }
                    return Err(e);
                },
            }
            i = i + 1;
        }
        proof {
            assert(cviews.take(self.constructors@.len() as int) =~= cviews);
        }
        let mut s = crate::text::join_all(&m_pieces, "\n");
        s.append("\n");
        s.append(crate::text::join_all(&c_pieces, "\n").as_str());
        s.append("\n");
        if self.constructors.len() > 0 {
            s.append(crate::quotes::drop_struct(base.as_str(), self.name.as_str()).as_str());
        }
        s.append("\n");
        s.append(crate::quotes::get_type_hash(base.as_str(), self.name.as_str()).as_str());
        proof {
            assert(s@ =~= spec_class_jni_methods(
                self@,
                match args.namespace {
                    Some(ref n) => Some(n@),
                    None => None,
                },
            )->Ok_0);
        }
        Ok(s)
    }

    /// Folds the imports of one method group onto `acc`.
    #[verifier::loop_isolation(false)]
    fn add_group_imports(ms: &Vec<JavaMethod>, acc: &mut Vec<String>)
        ensures
            final(acc)@.map_values(|p: String| p@) == spec_group_imports(
                ms@.map_values(|m: JavaMethod| m@),
                old(acc)@.map_values(|p: String| p@),
            ),
    {
        let ghost mviews = ms@.map_values(|m: JavaMethod| m@);
        let ghost init = old(acc)@.map_values(|p: String| p@);
        let mut i: usize = 0;
        while i < ms.len()
            invariant
                0 <= i <= ms.len(),
                acc@.map_values(|p: String| p@) == spec_group_imports(
                    mviews.take(i as int),
                    init,
                ),
            decreases ms.len() - i,
        {
            proof {
                assert(mviews.take(i + 1 as int).drop_last() =~= mviews.take(i as int));
                assert(mviews.take(i + 1 as int).last() == mviews[i as int]);
            }
            ms[i].add_imports(acc);
            i = i + 1;
        }
        proof {
            assert(mviews.take(ms@.len() as int) =~= mviews);
        }
    }

    /// The imports of the whole class: methods first, then constructors,
    /// without duplicates.
    pub fn get_imports(&self) -> (r: Vec<String>)
        ensures
            r@.map_values(|p: String| p@) == spec_class_imports(self@),
    {
        let mut acc: Vec<String> = Vec::new();
        proof {
            assert(acc@.map_values(|p: String| p@) =~= Seq::<Seq<char>>::empty());
        }
        JavaClass::add_group_imports(&self.methods, &mut acc);
        JavaClass::add_group_imports(&self.constructors, &mut acc);
        acc
    }

    /// Whether every method and constructor of this class has a declarable
    /// return category, so that the Java declaration file can be rendered;
    /// models built by classification always satisfy this.
    pub fn declarations_wf(&self) -> (r: bool)
        ensures
            r == self.decl_wf(),
    {
        let mut i: usize = 0;
        while i < self.methods.len()
            invariant
                0 <= i <= self.methods.len(),
                forall|j: int|
                    0 <= j < i ==> crate::java_method::declarable_ret(
                        #[trigger] self@.methods[j],
                    ),
            decreases self.methods.len() - i,
        {
            proof {
                assert(self@.methods[i as int] == self.methods@[i as int]@);
            }
            if !self.methods[i].has_declarable_ret() {
                proof {
                    assert(!crate::java_method::declarable_ret(self@.methods[i as int]));
                }
                return false;
            }
            i = i + 1;
        }
        i = 0;
        while i < self.constructors.len()
            invariant
                0 <= i <= self.constructors.len(),
                forall|j: int|
                    0 <= j < self.methods@.len() ==> crate::java_method::declarable_ret(
                        #[trigger] self@.methods[j],
                    ),
                forall|j: int|
                    0 <= j < i ==> crate::java_method::declarable_ret(
                        #[trigger] self@.constructors[j],
                    ),
            decreases self.constructors.len() - i,
        {
            proof {
                assert(self@.constructors[i as int] == self.constructors@[i as int]@);
            }
            if !self.constructors[i].has_declarable_ret() {
                proof {
                    assert(!crate::java_method::declarable_ret(self@.constructors[i as int]));
                }
                return false;
            }
            i = i + 1;
        }
        true
    }
}

impl AsDeclaration for JavaClass {
    /// Every method and constructor has a declarable return category; the
    /// generated destructor and type-hash entries always do.
    open spec fn decl_wf(&self) -> bool {
        &&& forall|j: int|
            0 <= j < self@.methods.len() ==> crate::java_method::declarable_ret(
                #[trigger] self@.methods[j],
            )
        &&& forall|j: int|
            0 <= j < self@.constructors.len() ==> crate::java_method::declarable_ret(
                #[trigger] self@.constructors[j],
            )
    }

    /// Emits the whole Java declaration file of this class: the outer
    /// wrapper with public forwarding methods and the type-hash accessor,
    /// and the inner native class with the `native` declarations, the
    /// constructors, and the destructor where the class owns handles.
    #[verifier::loop_isolation(false)]
    #[verifier::rlimit(100)]
    #[verifier::spinoff_prover]
    fn as_declaration(&self, _definition: bool) -> (r: String)
        ensures
            r@ == spec_class_declaration(self@),
    {
        let ghost mviews = self@.methods;
        let ghost cviews = self@.constructors;
        let ghost inner_list = mviews + (if cviews.len() > 0 {
            seq![spec_drop_method_v()]
        } else {
            Seq::<JavaMethodV>::empty()
        }) + seq![spec_hash_method_v()] + cviews;
        // declarations of the inner native class, over the extended list
        let mut inner_decl_pieces: Vec<String> = Vec::new();
        let mut i: usize = 0;
        proof {
            assert(inner_decl_pieces@.map_values(|p: String| p@) =~= spec_decl_pieces(
                mviews.take(0),
                self@.name,
                false,
            ));
        }
        while i < self.methods.len()
            invariant
                0 <= i <= self.methods.len(),
                inner_decl_pieces@.map_values(|p: String| p@) =~= spec_decl_pieces(
                    mviews.take(i as int),
                    self@.name,
                    false,
                ),
            decreases self.methods.len() - i,
        {
            proof {
                assert(mviews.take(i + 1 as int).drop_last() =~= mviews.take(i as int));
                assert(mviews.take(i + 1 as int).last() == mviews[i as int]);
                assert(crate::java_method::declarable_ret(self@.methods[i as int]));
            }
            inner_decl_pieces.push(self.methods[i].as_declaration(self.name.as_str(), false));
            proof {
                assert(inner_decl_pieces@.map_values(|p: String| p@) =~= spec_decl_pieces(
                    mviews.take(i + 1 as int),
                    self@.name,
                    false,
                ));
            }
            i = i + 1;
        }
        proof {
            assert(mviews.take(self.methods@.len() as int) =~= mviews);
        }
        let ghost with_drop = mviews + (if cviews.len() > 0 {
            seq![spec_drop_method_v()]
        } else {
            Seq::<JavaMethodV>::empty()
        });
        if self.constructors.len() > 0 {
            let dm = JavaMethod::drop_method();
            inner_decl_pieces.push(dm.as_declaration(self.name.as_str(), false));
        }
        proof {
            assert(with_drop.drop_last() =~= mviews || with_drop =~= mviews);
            if cviews.len() > 0 {
                assert(with_drop.drop_last() =~= mviews);
                assert(with_drop.last() == spec_drop_method_v());
            } else {
                assert(with_drop =~= mviews);
            }
            assert(inner_decl_pieces@.map_values(|p: String| p@) =~= spec_decl_pieces(
                with_drop,
                self@.name,
                false,
            ));
        }
        let hm = JavaMethod::get_type_hash();
        inner_decl_pieces.push(hm.as_declaration(self.name.as_str(), false));
        let ghost upto_hash = with_drop + seq![spec_hash_method_v()];
        proof {
            assert(upto_hash.drop_last() =~= with_drop);
            assert(upto_hash.last() == spec_hash_method_v());
            assert(inner_decl_pieces@.map_values(|p: String| p@) =~= spec_decl_pieces(
                upto_hash,
                self@.name,
                false,
            ));
        }
        i = 0;
        while i < self.constructors.len()
            invariant
                0 <= i <= self.constructors.len(),
                inner_decl_pieces@.map_values(|p: String| p@) =~= spec_decl_pieces(
                    upto_hash + cviews.take(i as int),
                    self@.name,
                    false,
                ),
            decreases self.constructors.len() - i,
        {
            proof {
                assert((upto_hash + cviews.take(i + 1 as int)).drop_last() =~= upto_hash
                    + cviews.take(i as int));
                assert((upto_hash + cviews.take(i + 1 as int)).last() == cviews[i as int]);
                assert(crate::java_method::declarable_ret(self@.constructors[i as int]));
            }
            inner_decl_pieces.push(self.constructors[i].as_declaration(self.name.as_str(), false));
            proof {
                assert(inner_decl_pieces@.map_values(|p: String| p@) =~= spec_decl_pieces(
                    upto_hash + cviews.take(i + 1 as int),
                    self@.name,
                    false,
                ));
            }
            i = i + 1;
        }
        proof {
            assert(upto_hash + cviews.take(self.constructors@.len() as int) =~= inner_list);
        }
        let inner_methods = crate::text::join_all(&inner_decl_pieces, "\n\t");
        // inner constructors
        let mut native_name = String::from_str(self.name.as_str());
        native_name.append("Native");
        let mut inner_ctor_pieces: Vec<String> = Vec::new();
        i = 0;
        proof {
            assert(inner_ctor_pieces@.map_values(|p: String| p@) =~= spec_ctor_pieces(
                cviews.take(0),
                self@.name + "Native"@,
                true,
            ));
        }
        while i < self.constructors.len()
            invariant
                0 <= i <= self.constructors.len(),
                native_name@ == self@.name + "Native"@,
                inner_ctor_pieces@.map_values(|p: String| p@) =~= spec_ctor_pieces(
                    cviews.take(i as int),
                    self@.name + "Native"@,
                    true,
                ),
            decreases self.constructors.len() - i,
        {
            proof {
                assert(cviews.take(i + 1 as int).drop_last() =~= cviews.take(i as int));
                assert(cviews.take(i + 1 as int).last() == cviews[i as int]);
            }
            inner_ctor_pieces.push(self.constructors[i].as_constructor(native_name.as_str(), true));
            proof {
                assert(inner_ctor_pieces@.map_values(|p: String| p@) =~= spec_ctor_pieces(
                    cviews.take(i + 1 as int),
                    self@.name + "Native"@,
                    true,
                ));
            }
            i = i + 1;
        }
        let inner_ctors = crate::text::join_all(&inner_ctor_pieces, "\n\t");
        let inner = crate::code::inner_class(
            self.name.as_str(),
            inner_methods.as_str(),
            inner_ctors.as_str(),
            self.load_lib.as_ref(),
        );
        // outer methods and constructors
        let mut outer_m_pieces: Vec<String> = Vec::new();
        i = 0;
        proof {
            assert(outer_m_pieces@.map_values(|p: String| p@) =~= spec_decl_pieces(
                mviews.take(0),
                self@.name,
                true,
            ));
        }
        while i < self.methods.len()
            invariant
                0 <= i <= self.methods.len(),
                outer_m_pieces@.map_values(|p: String| p@) =~= spec_decl_pieces(
                    mviews.take(i as int),
                    self@.name,
                    true,
                ),
            decreases self.methods.len() - i,
        {
            proof {
                assert(mviews.take(i + 1 as int).drop_last() =~= mviews.take(i as int));
                assert(mviews.take(i + 1 as int).last() == mviews[i as int]);
                assert(crate::java_method::declarable_ret(self@.methods[i as int]));
            }
            outer_m_pieces.push(self.methods[i].as_declaration(self.name.as_str(), true));
            proof {
                assert(outer_m_pieces@.map_values(|p: String| p@) =~= spec_decl_pieces(
                    mviews.take(i + 1 as int),
                    self@.name,
                    true,
                ));
            }
            i = i + 1;
        }
        let mut outer_c_pieces: Vec<String> = Vec::new();
        i = 0;
        proof {
            assert(outer_c_pieces@.map_values(|p: String| p@) =~= spec_ctor_pieces(
                cviews.take(0),
                self@.name,
                false,
            ));
        }
        while i < self.constructors.len()
            invariant
                0 <= i <= self.constructors.len(),
                outer_c_pieces@.map_values(|p: String| p@) =~= spec_ctor_pieces(
                    cviews.take(i as int),
                    self@.name,
                    false,
                ),
            decreases self.constructors.len() - i,
        {
            proof {
                assert(cviews.take(i + 1 as int).drop_last() =~= cviews.take(i as int));
                assert(cviews.take(i + 1 as int).last() == cviews[i as int]);
            }
            outer_c_pieces.push(self.constructors[i].as_constructor(self.name.as_str(), false));
            proof {
                assert(outer_c_pieces@.map_values(|p: String| p@) =~= spec_ctor_pieces(
                    cviews.take(i + 1 as int),
                    self@.name,
                    false,
                ));
            }
            i = i + 1;
        }
        proof {
            assert(mviews.take(self.methods@.len() as int) =~= mviews);
            assert(cviews.take(self.constructors@.len() as int) =~= cviews);
        }
        let comment = match crate::traits::GetComment::get_comment(&self.doc_lines) {
            Some(c) => c,
            None => String::new(),
        };
        let imports = self.get_imports();
        crate::code::outer_class(
            self.namespace.as_str(),
            self.name.as_str(),
            comment.as_str(),
            crate::text::join_all(&outer_m_pieces, "\n").as_str(),
            crate::text::join_all(&outer_c_pieces, "\n").as_str(),
            inner.as_str(),
            &imports,
        )
    }
}

} // verus!