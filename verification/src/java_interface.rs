//! The interface model: a native trait consumed as a host-implemented
//! callback, with the native proxy implementation and the Java interface
//! declaration generated from one shared model.
use vstd::prelude::*;

verus! {

use vstd::string::StrSliceExecFns;
use vstd::string::StringExecFns;
use crate::errors::{ClassificationError, ClassificationErrorV};
use crate::java_class::spec_group_imports;
use crate::java_method::{
    JavaMethod,
    JavaMethodV,
    spec_as_interface_declaration,
    spec_as_trait_method,
    spec_comment_or_empty,
    spec_from_sig,
};
use crate::signature::{BindgenAttrs, FnSig, FnSigV};

/// A callback interface grouped for generation.
#[derive(Debug)]
pub struct JavaInterface {
    pub name: String,
    pub methods: Vec<JavaMethod>,
    pub namespace: String,
    pub doc_lines: Vec<String>,
}

pub struct JavaInterfaceV {
    pub name: Seq<char>,
    pub methods: Seq<JavaMethodV>,
    pub namespace: Seq<char>,
    pub doc_lines: Seq<Seq<char>>,
}

impl View for JavaInterface {
    type V = JavaInterfaceV;

    open spec fn view(&self) -> JavaInterfaceV {
        JavaInterfaceV {
            name: self.name@,
            methods: self.methods@.map_values(|m: JavaMethod| m@),
            namespace: self.namespace@,
            doc_lines: self.doc_lines@.map_values(|l: String| l@),
        }
    }
}

/// The models of every trait method, in order; the first failing signature
/// aborts the group.
pub open spec fn spec_build_all(items: Seq<FnSigV>) -> Result<
    Seq<JavaMethodV>,
    ClassificationErrorV,
>
    decreases items.len(),
{
    if items.len() == 0 {
        Ok(Seq::empty())
    } else {
        match spec_build_all(items.drop_last()) {
            Err(e) => Err(e),
            Ok(rest) => match spec_from_sig(items.last()) {
                Ok(m) => Ok(rest.push(m)),
                Err(e) => Err(e),
            },
        }
    }
}

proof fn lemma_build_all_err(items: Seq<FnSigV>, j: int)
    requires
        0 <= j <= items.len(),
        spec_build_all(items.take(j)) is Err,
    ensures
        spec_build_all(items) == spec_build_all(items.take(j)),
    decreases items.len() - j,
{
    if j == items.len() {
        assert(items.take(j) =~= items);
    } else {
        assert(items.take(j + 1).drop_last() =~= items.take(j));
        lemma_build_all_err(items, j + 1);
    }
}

/// The proxy implementations of every trait method, in order.
pub open spec fn spec_trait_impls(ms: Seq<JavaMethodV>) -> Result<
    Seq<Seq<char>>,
    ClassificationErrorV,
>
    decreases ms.len(),
{
    if ms.len() == 0 {
        Ok(Seq::empty())
    } else {
        match spec_trait_impls(ms.drop_last()) {
            Err(e) => Err(e),
            Ok(rest) => match spec_as_trait_method(ms.last()) {
                Ok(b) => Ok(rest.push(b)),
                Err(e) => Err(e),
            },
        }
    }
}

proof fn lemma_trait_impls_err(ms: Seq<JavaMethodV>, j: int)
    requires
        0 <= j <= ms.len(),
        spec_trait_impls(ms.take(j)) is Err,
    ensures
        spec_trait_impls(ms) == spec_trait_impls(ms.take(j)),
    decreases ms.len() - j,
{
    if j == ms.len() {
        assert(ms.take(j) =~= ms);
    } else {
        assert(ms.take(j + 1).drop_last() =~= ms.take(j));
        lemma_trait_impls_err(ms, j + 1);
    }
}

/// The native side of a callback interface: a proxy struct holding the host
/// object, the trait implementation forwarding every method through the
/// runtime's reflective call, and the conversion that wraps an incoming host
/// object into the proxy.
pub open spec fn spec_interface_jni_methods(c: JavaInterfaceV) -> Result<
    Seq<char>,
    ClassificationErrorV,
> {
    match spec_trait_impls(c.methods) {
        Err(e) => Err(e),
        Ok(impls) => Ok(
            "pub struct "@ + c.name + "Impl<'local> { pub obj: jni::objects::JObject<'local>, }\nimpl "@
                + c.name + " for "@ + c.name + "Impl<'_> {\n"@ + crate::text::join_seq(
                impls,
                "\n"@,
            ) + "\n}\nimpl<'local> jni_bindgen::objects::traits::FromJNI<'local> for Box<dyn "@
                + c.name
                + " + 'local> { fn from_jni(env: &mut jni::JNIEnv<'local>, obj: jni::objects::JObject<'local>) -> core::result::Result<Self, jni_bindgen::errors::JNIError> { Ok(Box::new("@
                + c.name + "Impl { obj })) } }"@,
        ),
    }
}

/// The Java declaration texts of the interface methods.
pub open spec fn spec_interface_decl_pieces(ms: Seq<JavaMethodV>) -> Seq<Seq<char>>
    decreases ms.len(),
{
    if ms.len() == 0 {
        Seq::empty()
    } else {
        spec_interface_decl_pieces(ms.drop_last()).push(
            spec_as_interface_declaration(ms.last()),
        )
    }
}

/// The interface's imports: the union over its methods, except the generated
/// exception, whose `throws` clauses name it fully qualified.
pub open spec fn spec_interface_imports(c: JavaInterfaceV) -> Seq<Seq<char>> {
    spec_group_imports(c.methods, Seq::empty()).filter(
        |i: Seq<char>|
            !crate::text::contains_seq(i, "NativeExecutionException"@),
    )
}

/// The whole Java interface file.
pub open spec fn spec_interface_declaration(c: JavaInterfaceV) -> Seq<char> {
    crate::code::spec_interface(
        c.namespace,
        c.name,
        spec_comment_or_empty(c.doc_lines),
        crate::text::join_seq(spec_interface_decl_pieces(c.methods), "\n"@),
        spec_interface_imports(c),
    )
}

impl JavaInterface {
    /// Builds the interface model from the trait's method signatures; the
    /// declaration's attribute bag must name the namespace.
    #[verifier::loop_isolation(false)]
    pub fn from_items(
        name: String,
        doc_lines: Vec<String>,
        items: &Vec<FnSig>,
        args: &BindgenAttrs,
    ) -> (r: Result<JavaInterface, ClassificationError>)
        ensures
            r matches Ok(c) ==> {
                &&& spec_build_all(items@.map_values(|s: FnSig| s@)) matches Ok(ms) && c@.methods
                    == ms
                &&& args.namespace matches Some(n) && c@.namespace == n@
                &&& c@.name == name@
                &&& c@.doc_lines == doc_lines@.map_values(|l: String| l@)
            },
            r matches Err(e) ==> {
                ||| spec_build_all(items@.map_values(|s: FnSig| s@)) matches Err(ev) && e@ == ev
                ||| (spec_build_all(items@.map_values(|s: FnSig| s@)) is Ok && args.namespace
                    is None && e@ == crate::errors::ClassificationErrorV::MissingNamespace)
            },
    {
        let ghost iviews = items@.map_values(|s: FnSig| s@);
        let mut methods: Vec<JavaMethod> = Vec::new();
        let mut i: usize = 0;
        proof {
            assert(spec_build_all(iviews.take(0)) == Ok::<_, ClassificationErrorV>(
                Seq::<JavaMethodV>::empty(),
            ));
            assert(methods@.map_values(|m: JavaMethod| m@) =~= Seq::<JavaMethodV>::empty());
        }
        while i < items.len()
            invariant
                0 <= i <= items.len(),
                spec_build_all(iviews.take(i as int)) == Ok::<_, ClassificationErrorV>(
                    methods@.map_values(|m: JavaMethod| m@),
                ),
            decreases items.len() - i,
        {
            proof {
                assert(iviews.take(i + 1 as int).drop_last() =~= iviews.take(i as int));
                assert(iviews.take(i + 1 as int).last() == iviews[i as int]);
            }
            match JavaMethod::from_sig(&items[i]) {
                Ok(m) => {
                    methods.push(m);
                    proof {
                        assert(methods@.map_values(|m: JavaMethod| m@) =~= spec_build_all(
                            iviews.take(i + 1 as int),
                        )->Ok_0);
                    }
                },
                Err(e) => {
                    proof {
                        lemma_build_all_err(iviews, i + 1 as int);
                    }
                    return Err(e);
                },
            }
            i = i + 1;
        }
        proof {
            assert(iviews.take(items@.len() as int) =~= iviews);
        }
        let namespace = match args.get_namespace() {
            Ok(n) => n,
            Err(e) => {
                return Err(e);
            },
        };
        Ok(JavaInterface { name, methods, namespace, doc_lines })
    }

    /// Emits the native proxy for this interface.
    #[verifier::loop_isolation(false)]
    pub fn as_jni_methods(&self) -> (r: Result<String, ClassificationError>)
        ensures
            r matches Ok(s) ==> spec_interface_jni_methods(self@) matches Ok(v) && s@ == v,
            r matches Err(e) ==> spec_interface_jni_methods(self@) matches Err(ev) && e@ == ev,
    {
        let ghost mviews = self@.methods;
        let mut pieces: Vec<String> = Vec::new();
        let mut i: usize = 0;
        proof {
            assert(spec_trait_impls(mviews.take(0)) == Ok::<_, ClassificationErrorV>(
                Seq::<Seq<char>>::empty(),
            ));
            assert(pieces@.map_values(|p: String| p@) =~= Seq::<Seq<char>>::empty());
        }
        while i < self.methods.len()
            invariant
                0 <= i <= self.methods.len(),
                spec_trait_impls(mviews.take(i as int)) == Ok::<_, ClassificationErrorV>(
                    pieces@.map_values(|p: String| p@),
                ),
            decreases self.methods.len() - i,
        {
            proof {
                assert(mviews.take(i + 1 as int).drop_last() =~= mviews.take(i as int));
                assert(mviews.take(i + 1 as int).last() == mviews[i as int]);
            }
            match self.methods[i].as_trait_method() {
                Ok(b) => {
                    pieces.push(b);
                    proof {
                        assert(pieces@.map_values(|p: String| p@) =~= spec_trait_impls(
                            mviews.take(i + 1 as int),
                        )->Ok_0);
                    }
                },
                Err(e) => {
                    proof {
                        lemma_trait_impls_err(mviews, i + 1 as int);
                    }
                    return Err(e);
                },
            }
            i = i + 1;
        }
        proof {
            assert(mviews.take(self.methods@.len() as int) =~= mviews);
        }
        let mut s = String::from_str("pub struct ");
        s.append(self.name.as_str());
        s.append("Impl<'local> { pub obj: jni::objects::JObject<'local>, }\nimpl ");
        s.append(self.name.as_str());
        s.append(" for ");
        s.append(self.name.as_str());
        s.append("Impl<'_> {\n");
        s.append(crate::text::join_all(&pieces, "\n").as_str());
        s.append("\n}\nimpl<'local> jni_bindgen::objects::traits::FromJNI<'local> for Box<dyn ");
        s.append(self.name.as_str());
        s.append(
            " + 'local> { fn from_jni(env: &mut jni::JNIEnv<'local>, obj: jni::objects::JObject<'local>) -> core::result::Result<Self, jni_bindgen::errors::JNIError> { Ok(Box::new(",
        );
        s.append(self.name.as_str());
        s.append("Impl { obj })) } }");
        proof {
            assert(s@ =~= spec_interface_jni_methods(self@)->Ok_0);
        }
        Ok(s)
    }

    /// Emits the Java interface file.
    #[verifier::loop_isolation(false)]
    pub fn as_java_declaration(&self) -> (r: String)
        ensures
            r@ == spec_interface_declaration(self@),
    {
        let ghost mviews = self@.methods;
        let mut pieces: Vec<String> = Vec::new();
        let mut i: usize = 0;
        proof {
            assert(pieces@.map_values(|p: String| p@) =~= spec_interface_decl_pieces(
                mviews.take(0),
            ));
        }
        while i < self.methods.len()
            invariant
                0 <= i <= self.methods.len(),
                pieces@.map_values(|p: String| p@) =~= spec_interface_decl_pieces(
                    mviews.take(i as int),
                ),
            decreases self.methods.len() - i,
        {
            proof {
                assert(mviews.take(i + 1 as int).drop_last() =~= mviews.take(i as int));
                assert(mviews.take(i + 1 as int).last() == mviews[i as int]);
            }
            pieces.push(self.methods[i].as_interface_declaration());
            proof {
                assert(pieces@.map_values(|p: String| p@) =~= spec_interface_decl_pieces(
                    mviews.take(i + 1 as int),
                ));
            }
            i = i + 1;
        }
        proof {
            assert(mviews.take(self.methods@.len() as int) =~= mviews);
        }
        let mut all_imports: Vec<String> = Vec::new();
        proof {
            assert(all_imports@.map_values(|p: String| p@) =~= Seq::<Seq<char>>::empty());
        }
        let mut j: usize = 0;
        while j < self.methods.len()
            invariant
                0 <= j <= self.methods.len(),
                all_imports@.map_values(|p: String| p@) == spec_group_imports(
                    mviews.take(j as int),
                    Seq::empty(),
                ),
            decreases self.methods.len() - j,
        {
            proof {
                assert(mviews.take(j + 1 as int).drop_last() =~= mviews.take(j as int));
                assert(mviews.take(j + 1 as int).last() == mviews[j as int]);
            }
            self.methods[j].add_imports(&mut all_imports);
            j = j + 1;
        }
        proof {
            assert(mviews.take(self.methods@.len() as int) =~= mviews);
        }
        let ghost all = spec_group_imports(mviews, Seq::empty());
        let mut kept: Vec<String> = Vec::new();
        let mut k: usize = 0;
        proof {
            reveal(Seq::filter);
            assert(kept@.map_values(|p: String| p@) =~= all.take(0).filter(
                |i: Seq<char>| !crate::text::contains_seq(i, "NativeExecutionException"@),
            ));
        }
        while k < all_imports.len()
            invariant
                0 <= k <= all_imports.len(),
                all == all_imports@.map_values(|p: String| p@),
                all.len() == all_imports@.len(),
                kept@.map_values(|p: String| p@) =~= all.take(k as int).filter(
                    |i: Seq<char>| !crate::text::contains_seq(i, "NativeExecutionException"@),
                ),
            decreases all_imports.len() - k,
        {
            proof {
                reveal(Seq::filter);
                assert(all.take(k + 1 as int).drop_last() =~= all.take(k as int));
                assert(all.take(k + 1 as int).last() == all[k as int]);
            }
            if !crate::text::contains_str(all_imports[k].as_str(), "NativeExecutionException") {
                kept.push(all_imports[k].clone());
            }
            proof {
                assert(kept@.map_values(|p: String| p@) =~= all.take(k + 1 as int).filter(
                    |i: Seq<char>| !crate::text::contains_seq(i, "NativeExecutionException"@),
                ));
            }
            k = k + 1;
        }
        proof {
            assert(all.take(all_imports@.len() as int) =~= all);
        }
        let comment = match crate::traits::GetComment::get_comment(&self.doc_lines) {
            Some(c) => c,
            None => String::new(),
        };
        crate::code::interface(
            self.namespace.as_str(),
            self.name.as_str(),
            comment.as_str(),
            crate::text::join_all(&pieces, "\n").as_str(),
            &kept,
        )
    }
}

} // verus!
