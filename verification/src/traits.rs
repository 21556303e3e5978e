//! The small shared behaviours of the emitters: rendering a declaration and
//! carrying a documentation comment.
use vstd::prelude::*;

verus! {

use vstd::string::StringExecFns;

/// Something that renders into Java declaration text, as a definition or as
/// a bare declaration.
pub trait AsDeclaration {
    /// Whether every rendered signature has a Java type to declare;
    /// rendering is only defined on such models.
    spec fn decl_wf(&self) -> bool;

    fn as_declaration(&self, definition: bool) -> String
        requires
            self.decl_wf(),
    ;
}

/// Something that carries documentation lines renderable as a Java doc
/// comment.
pub trait GetComment {
    fn get_comment(&self) -> Option<String>;
}

impl GetComment for Vec<String> {
    /// The Java doc comment of these documentation lines; absent where there
    /// are none.
    fn get_comment(&self) -> (r: Option<String>)
        ensures
            r matches Some(s) ==> crate::java_method::spec_comment(
                self@.map_values(|l: String| l@),
            ) matches Some(v) && s@ == v,
            r is None ==> crate::java_method::spec_comment(self@.map_values(|l: String| l@))
                is None,
    {
        if self.len() == 0 {
            return None;
        }
        let ghost lineviews = self@.map_values(|l: String| l@);
        let mut pieces: Vec<String> = Vec::new();
        let mut i: usize = 0;
        proof {
            assert(pieces@.map_values(|p: String| p@) =~= lineviews.take(0).map_values(
                |l: Seq<char>| "* "@ + crate::text::trim_seq(l),
            ));
        }
        while i < self.len()
            invariant
                0 <= i <= self.len(),
                lineviews == self@.map_values(|l: String| l@),
                lineviews.len() == self@.len(),
                forall|j: int| 0 <= j < self@.len() ==> lineviews[j] == self@[j]@,
                pieces@.map_values(|p: String| p@) =~= lineviews.take(i as int).map_values(
                    |l: Seq<char>| "* "@ + crate::text::trim_seq(l),
                ),
            decreases self.len() - i,
        {
            let mut piece = String::from_str("* ");
            piece.append(crate::text::trim(self[i].as_str()).as_str());
            pieces.push(piece);
            proof {
                assert(lineviews.take(i + 1 as int).map_values(
                    |l: Seq<char>| "* "@ + crate::text::trim_seq(l),
                ) =~= lineviews.take(i as int).map_values(
                    |l: Seq<char>| "* "@ + crate::text::trim_seq(l),
                ).push("* "@ + crate::text::trim_seq(lineviews[i as int])));
                assert(pieces@.map_values(|p: String| p@) =~= lineviews.take(
                    i + 1 as int,
                ).map_values(|l: Seq<char>| "* "@ + crate::text::trim_seq(l)));
            }
            i = i + 1;
        }
        proof {
            assert(lineviews.take(self@.len() as int) =~= lineviews);
        }
        let mut s = String::from_str("/**\n");
        s.append(crate::text::join_all(&pieces, "\n").as_str());
        s.append("\n */\n");
        Some(s)
    }
}

} // verus!
