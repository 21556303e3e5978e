//! The Java source templates of the declaration emitter: the interface and
//! class skeletons, the disabled constructor, the library loader, and the
//! deterministic indentation pass every emitted file goes through.
use vstd::prelude::*;

verus! {

use vstd::string::StrSliceExecFns;
use vstd::string::StringExecFns;
use crate::text::{
    contains_char,
    contains_seq,
    contains_str,
    indent_pad,
    indent_pad_seq,
    join_all,
    join_seq,
    split_lines,
    split_lines_seq,
    starts_with,
    trim,
    trim_seq,
};

/// The overriding destructor of an inner native class.
pub open spec fn spec_destruct() -> Seq<char> {
    "\n    @Override\n    protected void destruct() {\n        drop(this.ptr);\n    }\n"@
}

/// A constructor that unconditionally raises: emitted where a class has no
/// native constructors and exists only to host static methods.
pub open spec fn spec_disable_ctor(class_name: Seq<char>) -> Seq<char> {
    "\n    /**\n     * Disable instantiation of "@ + class_name
        + "\n     */\n    private "@ + class_name
        + "() {\n        throw new UnsupportedOperationException(\""@ + class_name
        + " cannot be instantiated\");\n    }\n    "@
}

fn disable_ctor(class_name: &str) -> (r: String)
    ensures
        r@ == spec_disable_ctor(class_name@),
{
    let mut s = String::from_str("\n    /**\n     * Disable instantiation of ");
    s.append(class_name);
    s.append("\n     */\n    private ");
    s.append(class_name);
    s.append("() {\n        throw new UnsupportedOperationException(\"");
    s.append(class_name);
    s.append(" cannot be instantiated\");\n    }\n    ");
    s
}

/// The static initializer that loads the native library by name.
pub open spec fn spec_load_library(lib_name: Seq<char>) -> Seq<char> {
    "        static {\n            System.loadLibrary(\""@ + lib_name + "\");\n        }"@
}

fn load_library(lib_name: &str) -> (r: String)
    ensures
        r@ == spec_load_library(lib_name@),
{
    let mut s = String::from_str("        static {\n            System.loadLibrary(\"");
    s.append(lib_name);
    s.append("\");\n        }");
    s
}

/// One `import` line per entry, in order.
pub open spec fn spec_import_lines(imports: Seq<Seq<char>>) -> Seq<char> {
    join_seq(imports.map_values(|i: Seq<char>| "import "@ + i + ";"@), "\n"@)
}

fn import_lines(imports: &Vec<String>) -> (r: String)
    ensures
        r@ == spec_import_lines(imports@.map_values(|p: String| p@)),
{
    let ghost views = imports@.map_values(|p: String| p@);
    let mut pieces: Vec<String> = Vec::new();
    let mut i: usize = 0;
    proof {
        assert(pieces@.map_values(|p: String| p@) =~= views.take(0).map_values(
            |x: Seq<char>| "import "@ + x + ";"@,
        ));
    }
    while i < imports.len()
        invariant
            0 <= i <= imports.len(),
            views == imports@.map_values(|p: String| p@),
            views.len() == imports@.len(),
            forall|j: int| 0 <= j < imports@.len() ==> views[j] == imports@[j]@,
            pieces@.map_values(|p: String| p@) =~= views.take(i as int).map_values(
                |x: Seq<char>| "import "@ + x + ";"@,
            ),
        decreases imports.len() - i,
    {
        let mut piece = String::from_str("import ");
        piece.append(imports[i].as_str());
        piece.append(";");
        pieces.push(piece);
        proof {
            assert(views.take(i + 1 as int).map_values(|x: Seq<char>| "import "@ + x + ";"@)
                =~= views.take(i as int).map_values(|x: Seq<char>| "import "@ + x + ";"@).push(
                "import "@ + views[i as int] + ";"@,
            ));
            assert(pieces@.map_values(|p: String| p@) =~= views.take(i + 1 as int).map_values(
                |x: Seq<char>| "import "@ + x + ";"@,
            ));
        }
        i = i + 1;
    }
    proof {
        assert(views.take(imports@.len() as int) =~= views);
    }
    join_all(&pieces, "\n")
}

/// The previous cleaned line, or nothing at the start.
pub open spec fn spec_prev_line(lines: Seq<Seq<char>>, i: int) -> Seq<char> {
    if i > 0 {
        lines[i - 1]
    } else {
        Seq::empty()
    }
}

/// The next cleaned line, or nothing at the end.
pub open spec fn spec_next_line(lines: Seq<Seq<char>>, i: int) -> Seq<char> {
    if i + 1 < lines.len() {
        lines[i + 1]
    } else {
        Seq::empty()
    }
}

pub open spec fn line_starts(line: Seq<char>, c: char) -> bool {
    line.len() > 0 && line[0] == c
}

pub open spec fn line_ends(line: Seq<char>, c: char) -> bool {
    line.len() > 0 && line.last() == c
}

/// One rendered line: an optional leading blank line, the indentation, the
/// line, and an optional trailing blank line.
pub open spec fn spec_render_line(
    line: Seq<char>,
    prev: Seq<char>,
    next: Seq<char>,
    indent: nat,
) -> Seq<char> {
    let pre = if ("public class"@.is_prefix_of(line) && !prev.contains('*')) || (
    "/**"@.is_prefix_of(line) && "import"@.is_prefix_of(prev)) {
        "\n"@
    } else {
        Seq::<char>::empty()
    };
    let pad = if line_starts(line, '*') {
        indent_pad_seq(indent) + " "@
    } else {
        indent_pad_seq(indent)
    };
    let nl = if !line_ends(line, '{') && !line.contains('*') && (!line_ends(line, ';')
        || contains_seq(line, "native"@) || contains_seq(line, "private"@) || contains_seq(
        line,
        "package"@,
    )) && !line.contains('@') && !next.contains('}') {
        "\n"@
    } else {
        Seq::<char>::empty()
    };
    pre + pad + line + nl
}

/// The rendered lines from position `i` on, tracking the brace depth:
/// a closing brace outdents its own line, an opening brace indents what
/// follows.
pub open spec fn spec_fmt_pieces(lines: Seq<Seq<char>>, i: int, indent: nat) -> Seq<Seq<char>>
    decreases lines.len() - i,
{
    if i < 0 || i >= lines.len() {
        Seq::empty()
    } else {
        let ind1 = if line_starts(lines[i], '}') {
            if indent > 0 {
                (indent - 1) as nat
            } else {
                0
            }
        } else {
            indent
        };
        let ind2 = if line_ends(lines[i], '{') {
            ind1 + 1
        } else {
            ind1
        };
        seq![
            spec_render_line(lines[i], spec_prev_line(lines, i), spec_next_line(lines, i), ind1),
        ] + spec_fmt_pieces(lines, i + 1, ind2)
    }
}

/// The cleaned lines of a template: split at newlines, trimmed, with empty
/// lines dropped.
pub open spec fn spec_clean_lines(code: Seq<char>) -> Seq<Seq<char>> {
    split_lines_seq(code).map_values(|l: Seq<char>| trim_seq(l)).filter(
        |l: Seq<char>| l.len() > 0,
    )
}

/// The deterministic indentation pass: the cleaned lines, re-indented by
/// brace depth and joined with newlines.
pub open spec fn spec_format_code(code: Seq<char>) -> Seq<char> {
    join_seq(spec_fmt_pieces(spec_clean_lines(code), 0, 0), "\n"@)
}

fn line_starts_exec(line: &str, c: char) -> (r: bool)
    ensures
        r == line_starts(line@, c),
{
    let n = line.unicode_len();
    n > 0 && line.get_char(0) == c
}

fn line_ends_exec(line: &str, c: char) -> (r: bool)
    ensures
        r == line_ends(line@, c),
{
    let n = line.unicode_len();
    n > 0 && line.get_char(n - 1) == c
}

fn render_line(line: &str, prev: &str, next: &str, indent: usize) -> (r: String)
    ensures
        r@ == spec_render_line(line@, prev@, next@, indent as nat),
{
    let mut s = String::new();
    if (starts_with(line, "public class") && !contains_char(prev, '*')) || (starts_with(
        line,
        "/**",
    ) && starts_with(prev, "import")) {
        s.append("\n");
    }
    s.append(indent_pad(indent).as_str());
    if line_starts_exec(line, '*') {
        s.append(" ");
    }
    s.append(line);
    if !line_ends_exec(line, '{') && !contains_char(line, '*') && (!line_ends_exec(line, ';')
        || contains_str(line, "native") || contains_str(line, "private") || contains_str(
        line,
        "package",
    )) && !contains_char(line, '@') && !contains_char(next, '}') {
        s.append("\n");
    }
    proof {
        assert(s@ =~= spec_render_line(line@, prev@, next@, indent as nat));
    }
    s
}

/// Re-indents emitted Java text line by line, tracking brace depth, and
/// collapses blank lines.
#[verifier::loop_isolation(false)]
pub fn format_code(code: &str) -> (r: String)
    ensures
        r@ == spec_format_code(code@),
{
    let raw = split_lines(code);
    let ghost rawviews = raw@.map_values(|p: String| p@);
    // clean: trim and drop empties
    let mut lines: Vec<String> = Vec::new();
    let mut i: usize = 0;
    proof {
        reveal(Seq::filter);
        assert(rawviews.take(0).map_values(|l: Seq<char>| trim_seq(l)) =~= Seq::<
            Seq<char>,
        >::empty());
        assert(lines@.map_values(|p: String| p@) =~= rawviews.take(0).map_values(
            |l: Seq<char>| trim_seq(l),
        ).filter(|l: Seq<char>| l.len() > 0));
    }
    while i < raw.len()
        invariant
            0 <= i <= raw.len(),
            lines@.map_values(|p: String| p@) =~= rawviews.take(i as int).map_values(
                |l: Seq<char>| trim_seq(l),
            ).filter(|l: Seq<char>| l.len() > 0),
        decreases raw.len() - i,
    {
        proof {
            reveal(Seq::filter);
            assert(rawviews.take(i + 1 as int).map_values(|l: Seq<char>| trim_seq(l)) =~= rawviews
                .take(i as int).map_values(|l: Seq<char>| trim_seq(l)).push(
                trim_seq(rawviews[i as int]),
            ));
            assert(rawviews.take(i + 1 as int).map_values(|l: Seq<char>| trim_seq(l)).drop_last()
                =~= rawviews.take(i as int).map_values(|l: Seq<char>| trim_seq(l)));
            assert(rawviews.take(i + 1 as int).map_values(|l: Seq<char>| trim_seq(l)).last()
                == trim_seq(rawviews[i as int]));
        }
        let t = trim(raw[i].as_str());
        if t.unicode_len() > 0 {
            lines.push(t);
        }
        proof {
            assert(lines@.map_values(|p: String| p@) =~= rawviews.take(i + 1 as int).map_values(
                |l: Seq<char>| trim_seq(l),
            ).filter(|l: Seq<char>| l.len() > 0));
        }
        i = i + 1;
    }
    proof {
        assert(rawviews.take(raw@.len() as int) =~= rawviews);
    }
    let ghost cleaned = spec_clean_lines(code@);
    proof {
        assert(lines@.map_values(|p: String| p@) =~= cleaned);
    }
    // render with brace-depth tracking
    let mut pieces: Vec<String> = Vec::new();
    let mut indent: usize = 0;
    i = 0;
    proof {
        assert(pieces@.map_values(|p: String| p@) + spec_fmt_pieces(cleaned, 0, 0)
            =~~= spec_fmt_pieces(cleaned, 0, 0));
    }
    while i < lines.len()
        invariant
            0 <= i <= lines.len(),
            indent <= i,
            lines@.map_values(|p: String| p@) =~= cleaned,
            pieces@.map_values(|p: String| p@) + spec_fmt_pieces(cleaned, i as int, indent as nat)
                =~~= spec_fmt_pieces(cleaned, 0, 0),
        decreases lines.len() - i,
    {
        let line = &lines[i];
        let mut ind1 = indent;
        if line_starts_exec(line.as_str(), '}') {
            if ind1 > 0 {
                ind1 = ind1 - 1;
            }
        }
        let empty_line = String::new();
        let prev: &String = if i > 0 {
            &lines[i - 1]
        } else {
            &empty_line
        };
        let next: &String = if i + 1 < lines.len() {
            &lines[i + 1]
        } else {
            &empty_line
        };
        let rendered = render_line(line.as_str(), prev.as_str(), next.as_str(), ind1);
        pieces.push(rendered);
        let ind2 = if line_ends_exec(line.as_str(), '{') {
            ind1 + 1
        } else {
            ind1
        };
        proof {
            assert(cleaned[i as int] == lines@[i as int]@);
            assert(spec_prev_line(cleaned, i as int) == prev@);
            assert(spec_next_line(cleaned, i as int) == next@);
            assert(spec_fmt_pieces(cleaned, i as int, indent as nat) =~~= seq![
                spec_render_line(
                    cleaned[i as int],
                    spec_prev_line(cleaned, i as int),
                    spec_next_line(cleaned, i as int),
                    ind1 as nat,
                ),
            ] + spec_fmt_pieces(cleaned, i + 1 as int, ind2 as nat));
            assert(pieces@.map_values(|p: String| p@) + spec_fmt_pieces(
                cleaned,
                i + 1 as int,
                ind2 as nat,
            ) =~~= spec_fmt_pieces(cleaned, 0, 0));
        }
        indent = ind2;
        i = i + 1;
    }
    proof {
        assert(spec_fmt_pieces(cleaned, lines@.len() as int, indent as nat) =~= Seq::<
            Seq<char>,
        >::empty());
        assert(pieces@.map_values(|p: String| p@) =~~= spec_fmt_pieces(cleaned, 0, 0));
    }
    join_all(&pieces, "\n")
}

proof fn lemma_render_contains(line: Seq<char>, prev: Seq<char>, next: Seq<char>, ind: nat)
    ensures
        contains_seq(spec_render_line(line, prev, next, ind), line),
{
    let r = spec_render_line(line, prev, next, ind);
    let pre = if ("public class"@.is_prefix_of(line) && !prev.contains('*')) || (
    "/**"@.is_prefix_of(line) && "import"@.is_prefix_of(prev)) {
        "\n"@
    } else {
        Seq::<char>::empty()
    };
    let pad = if line_starts(line, '*') {
        indent_pad_seq(ind) + " "@
    } else {
        indent_pad_seq(ind)
    };
    let off = (pre.len() + pad.len()) as int;
    assert(r.subrange(off, off + line.len()) =~= line);
    assert(contains_seq(r, line));
}

proof fn lemma_fmt_len(lines: Seq<Seq<char>>, j: int, ind: nat)
    requires
        0 <= j <= lines.len(),
    ensures
        spec_fmt_pieces(lines, j, ind).len() == lines.len() - j,
    decreases lines.len() - j,
{
    if j < lines.len() {
        let ind1 = if line_starts(lines[j], '}') {
            if ind > 0 {
                (ind - 1) as nat
            } else {
                0
            }
        } else {
            ind
        };
        let ind2 = if line_ends(lines[j], '{') {
            ind1 + 1
        } else {
            ind1
        };
        lemma_fmt_len(lines, j + 1, ind2);
    }
}

proof fn lemma_fmt_piece_contains(lines: Seq<Seq<char>>, j: int, ind: nat, i: int)
    requires
        0 <= j <= i < lines.len(),
    ensures
        contains_seq(spec_fmt_pieces(lines, j, ind)[i - j], lines[i]),
    decreases i - j,
{
    let ind1 = if line_starts(lines[j], '}') {
        if ind > 0 {
            (ind - 1) as nat
        } else {
            0
        }
    } else {
        ind
    };
    let ind2 = if line_ends(lines[j], '{') {
        ind1 + 1
    } else {
        ind1
    };
    if i == j {
        lemma_render_contains(lines[i], spec_prev_line(lines, i), spec_next_line(lines, i), ind1);
    } else {
        lemma_fmt_piece_contains(lines, j + 1, ind2, i);
        lemma_fmt_len(lines, j + 1, ind2);
        assert(spec_fmt_pieces(lines, j, ind)[i - j] == spec_fmt_pieces(lines, j + 1, ind2)[i - j
            - 1]);
    }
}

proof fn lemma_format_contains_line(code: Seq<char>, k: int)
    requires
        0 <= k < spec_clean_lines(code).len(),
    ensures
        contains_seq(spec_format_code(code), spec_clean_lines(code)[k]),
{
    let lines = spec_clean_lines(code);
    lemma_fmt_len(lines, 0, 0);
    lemma_fmt_piece_contains(lines, 0, 0, k);
    crate::text::lemma_join_contains(spec_fmt_pieces(lines, 0, 0), "\n"@, k);
    crate::text::lemma_contains_trans(
        join_seq(spec_fmt_pieces(lines, 0, 0), "\n"@),
        spec_fmt_pieces(lines, 0, 0)[k],
        lines[k],
    );
}

/// A line of a template that the cleaning pass keeps — one without line
/// breaks, with visible text once trimmed — appears, trimmed, in the
/// formatted output.
pub proof fn lemma_format_keeps_line(code: Seq<char>, a: Seq<char>, line: Seq<char>, b: Seq<char>)
    requires
        code == a + seq!['\n'] + line + seq!['\n'] + b,
        !line.contains('\n'),
        trim_seq(line).len() > 0,
    ensures
        contains_seq(spec_format_code(code), trim_seq(line)),
{
    let y = line + seq!['\n'] + b;
    assert(code =~= a + seq!['\n'] + y);
    crate::text::lemma_split_lines_app(a, y);
    crate::text::lemma_split_lines_app(line, b);
    crate::text::lemma_split_lines_single(line);
    let lines = split_lines_seq(code);
    assert(lines == split_lines_seq(a) + (seq![line] + split_lines_seq(b)));
    let i = split_lines_seq(a).len() as int;
    assert(lines[i] == line);
    let mapped = lines.map_values(|l: Seq<char>| trim_seq(l));
    assert(mapped[i] == trim_seq(line));
    mapped.lemma_filter_contains(|l: Seq<char>| l.len() > 0, i);
    let clean = spec_clean_lines(code);
    assert(clean == mapped.filter(|l: Seq<char>| l.len() > 0));
    assert(clean.contains(trim_seq(line)));
    let k = choose|k: int| 0 <= k < clean.len() && clean[k] == trim_seq(line);
    lemma_format_contains_line(code, k);
}

/// A generated Java interface file: package line, imports, doc comment, and
/// the interface body, passed through the indentation pass.
pub open spec fn spec_interface(
    namespace: Seq<char>,
    class_name: Seq<char>,
    comment: Seq<char>,
    methods: Seq<char>,
    imports: Seq<Seq<char>>,
) -> Seq<char> {
    spec_format_code(
        "\n    package "@ + namespace + ";\n    \n    "@ + spec_import_lines(imports)
            + "\n    \n    "@ + comment + "\n    public interface "@ + class_name
            + " {\n        "@ + methods + "\n    }\n    "@,
    )
}

/// Emits a Java interface file.
pub fn interface(
    namespace: &str,
    class_name: &str,
    comment: &str,
    methods: &str,
    additional_imports: &Vec<String>,
) -> (r: String)
    ensures
        r@ == spec_interface(
            namespace@,
            class_name@,
            comment@,
            methods@,
            additional_imports@.map_values(|p: String| p@),
        ),
{
    let mut s = String::from_str("\n    package ");
    s.append(namespace);
    s.append(";\n    \n    ");
    s.append(import_lines(additional_imports).as_str());
    s.append("\n    \n    ");
    s.append(comment);
    s.append("\n    public interface ");
    s.append(class_name);
    s.append(" {\n        ");
    s.append(methods);
    s.append("\n    }\n    ");
    format_code(s.as_str())
}

/// The inner native holder class: the optional library loader, the
/// constructors (or a raising one where the class has none), the native
/// method declarations, and the destructor where the class owns handles.
pub open spec fn spec_inner_class(
    class_name: Seq<char>,
    methods: Seq<char>,
    constructors: Seq<char>,
    load_lib: Option<Seq<char>>,
) -> Seq<char> {
    let init_lib = match load_lib {
        Some(l) => spec_load_library(l),
        None => Seq::<char>::empty(),
    };
    let has = constructors.len() > 0;
    let extends = if has {
        "extends NativeClass "@
    } else {
        Seq::<char>::empty()
    };
    let ctors = if has {
        constructors
    } else {
        spec_disable_ctor(class_name + "Native"@)
    };
    let destruct = if has {
        spec_destruct()
    } else {
        Seq::<char>::empty()
    };
    "\n        public static class "@ + class_name + "Native "@ + extends + "{\n            "@
        + init_lib + "\n            "@ + ctors + "\n            "@ + methods + "\n            "@
        + destruct + "\n        }\n    "@
}

/// Emits the inner native holder class.
pub fn inner_class(
    class_name: &str,
    methods: &str,
    constructors: &str,
    load_lib: Option<&String>,
) -> (r: String)
    ensures
        r@ == spec_inner_class(
            class_name@,
            methods@,
            constructors@,
            match load_lib {
                Some(l) => Some(l@),
                None => None,
            },
        ),
{
    let has = constructors.unicode_len() > 0;
    let mut s = String::from_str("\n        public static class ");
    s.append(class_name);
    s.append("Native ");
    if has {
        s.append("extends NativeClass ");
    }
    s.append("{\n            ");
    match load_lib {
        Some(l) => {
            s.append(load_library(l.as_str()).as_str());
        },
        None => {},
    }
    s.append("\n            ");
    if has {
        s.append(constructors);
    } else {
        let mut n = String::from_str(class_name);
        n.append("Native");
        s.append(disable_ctor(n.as_str()).as_str());
    }
    s.append("\n            ");
    s.append(methods);
    s.append("\n            ");
    if has {
        s.append("\n    @Override\n    protected void destruct() {\n        drop(this.ptr);\n    }\n");
    }
    s.append("\n        }\n    ");
    proof {
        assert(s@ =~= spec_inner_class(
            class_name@,
            methods@,
            constructors@,
            match load_lib {
                Some(l) => Some(l@),
                None => None,
            },
        ));
    }
    s
}

/// The outer wrapper class: the imports (with the handle-support imports
/// added where the class owns handles), the constructors (or a raising one),
/// the public forwarding methods, the static type-hash accessor, the inner
/// handle accessor, and the inner native class — all through the indentation
/// pass.
pub open spec fn spec_outer_class(
    namespace: Seq<char>,
    class_name: Seq<char>,
    comment: Seq<char>,
    methods: Seq<char>,
    constructors: Seq<char>,
    inner: Seq<char>,
    imports: Seq<Seq<char>>,
) -> Seq<char> {
    let has = constructors.len() > 0;
    let imports2 = if has {
        crate::java_type::add_unique(
            crate::java_type::add_unique(imports, "com.github.markusjx.jnibindgen.NativeClass"@),
            "com.github.markusjx.jnibindgen.NativeClassImpl"@,
        )
    } else {
        imports
    };
    let inner_ty = if has {
        "private final "@ + class_name + "Native inner;"@
    } else {
        Seq::<char>::empty()
    };
    let implements = if has {
        " implements NativeClassImpl<"@ + class_name + "."@ + class_name + "Native>"@
    } else {
        Seq::<char>::empty()
    };
    let get_inner = if has {
        "\n    @Override\n    public "@ + class_name
            + "Native getInner() {\n        return inner;\n    }"@
    } else {
        Seq::<char>::empty()
    };
    let ctors = if has {
        constructors
    } else {
        spec_disable_ctor(class_name)
    };
    spec_format_code(
        "package "@ + namespace + ";\n\n        "@ + spec_import_lines(imports2)
            + "\n        \n        "@ + comment + "\n        public class "@ + class_name + " "@
            + implements + "{\n    "@ + inner_ty + "\n    \n    "@ + ctors + "\n\n    "@ + methods
            + "\n    \n    /**\n     * Get the type of the underlying native class\n     * in a hashed form. This is used to check if\n     * the native class is the same as the one\n     * that is expected.\n     *\n     * @return The type hash of this class\n     */\n    public static long getTypeHash() {\n        return "@
            + class_name + "Native.getTypeHash();\n    }\n\n    "@ + get_inner + "\n\n    "@
            + inner + "\n}"@,
    )
}

/// Emits the outer wrapper class file.
pub fn outer_class(
    namespace: &str,
    class_name: &str,
    comment: &str,
    methods: &str,
    constructors: &str,
    inner: &str,
    additional_imports: &Vec<String>,
) -> (r: String)
    ensures
        r@ == spec_outer_class(
            namespace@,
            class_name@,
            comment@,
            methods@,
            constructors@,
            inner@,
            additional_imports@.map_values(|p: String| p@),
        ),
{
    let has = constructors.unicode_len() > 0;
    let mut imports2: Vec<String> = Vec::new();
    let mut i: usize = 0;
    while i < additional_imports.len()
        invariant
            0 <= i <= additional_imports.len(),
            imports2@ =~= additional_imports@.take(i as int),
        decreases additional_imports.len() - i,
    {
        imports2.push(additional_imports[i].clone());
        i = i + 1;
    }
    proof {
        assert(imports2@ =~= additional_imports@);
        assert(imports2@.map_values(|p: String| p@) =~= additional_imports@.map_values(
            |p: String| p@,
        ));
    }
    if has {
        if !crate::text::vec_contains_string(
            &imports2,
            "com.github.markusjx.jnibindgen.NativeClass",
        ) {
            imports2.push(String::from_str("com.github.markusjx.jnibindgen.NativeClass"));
            proof {
                assert(imports2@.map_values(|p: String| p@) =~= crate::java_type::add_unique(
                    additional_imports@.map_values(|p: String| p@),
                    "com.github.markusjx.jnibindgen.NativeClass"@,
                ));
            }
        }
        if !crate::text::vec_contains_string(
            &imports2,
            "com.github.markusjx.jnibindgen.NativeClassImpl",
        ) {
            imports2.push(String::from_str("com.github.markusjx.jnibindgen.NativeClassImpl"));
            proof {
                assert(imports2@.map_values(|p: String| p@) =~= crate::java_type::add_unique(
                    crate::java_type::add_unique(
                        additional_imports@.map_values(|p: String| p@),
                        "com.github.markusjx.jnibindgen.NativeClass"@,
                    ),
                    "com.github.markusjx.jnibindgen.NativeClassImpl"@,
                ));
            }
        }
    }
    let mut s = String::from_str("package ");
    s.append(namespace);
    s.append(";\n\n        ");
    s.append(import_lines(&imports2).as_str());
    s.append("\n        \n        ");
    s.append(comment);
    s.append("\n        public class ");
    s.append(class_name);
    s.append(" ");
    if has {
        s.append(" implements NativeClassImpl<");
        s.append(class_name);
        s.append(".");
        s.append(class_name);
        s.append("Native>");
    }
    s.append("{\n    ");
    if has {
        s.append("private final ");
        s.append(class_name);
        s.append("Native inner;");
    }
    s.append("\n    \n    ");
    if has {
        s.append(constructors);
    } else {
        s.append(disable_ctor(class_name).as_str());
    }
    s.append("\n\n    ");
    s.append(methods);
    s.append(
        "\n    \n    /**\n     * Get the type of the underlying native class\n     * in a hashed form. This is used to check if\n     * the native class is the same as the one\n     * that is expected.\n     *\n     * @return The type hash of this class\n     */\n    public static long getTypeHash() {\n        return ",
    );
    s.append(class_name);
    s.append("Native.getTypeHash();\n    }\n\n    ");
    if has {
        s.append("\n    @Override\n    public ");
        s.append(class_name);
        s.append("Native getInner() {\n        return inner;\n    }");
    }
    s.append("\n\n    ");
    s.append(inner);
    s.append("\n}");
    proof {
        assert(s@ =~= "package "@ + namespace@ + ";\n\n        "@ + spec_import_lines(
            if has {
                crate::java_type::add_unique(
                    crate::java_type::add_unique(
                        additional_imports@.map_values(|p: String| p@),
                        "com.github.markusjx.jnibindgen.NativeClass"@,
                    ),
                    "com.github.markusjx.jnibindgen.NativeClassImpl"@,
                )
            } else {
                additional_imports@.map_values(|p: String| p@)
            },
        ) + "\n        \n        "@ + comment@ + "\n        public class "@ + class_name@ + " "@
            + (if has {
            " implements NativeClassImpl<"@ + class_name@ + "."@ + class_name@ + "Native>"@
        } else {
            Seq::<char>::empty()
        }) + "{\n    "@ + (if has {
            "private final "@ + class_name@ + "Native inner;"@
        } else {
            Seq::<char>::empty()
        }) + "\n    \n    "@ + (if has {
            constructors@
        } else {
            spec_disable_ctor(class_name@)
        }) + "\n\n    "@ + methods@
            + "\n    \n    /**\n     * Get the type of the underlying native class\n     * in a hashed form. This is used to check if\n     * the native class is the same as the one\n     * that is expected.\n     *\n     * @return The type hash of this class\n     */\n    public static long getTypeHash() {\n        return "@
            + class_name@ + "Native.getTypeHash();\n    }\n\n    "@ + (if has {
            "\n    @Override\n    public "@ + class_name@
                + "Native getInner() {\n        return inner;\n    }"@
        } else {
            Seq::<char>::empty()
        }) + "\n\n    "@ + inner@ + "\n}"@);
    }
    format_code(s.as_str())
}

} // verus!
