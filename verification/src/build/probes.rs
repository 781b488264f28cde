//! The C programs the build compiles to learn what the target offers, in
//! the way cmake's checks write them.
use vstd::prelude::*;
use vstd::string::StringExecFns;

verus! {

/// The lines including each of `headers`, in order.
pub open spec fn include_lines(headers: Seq<&str>) -> Seq<char>
    decreases headers.len(),
{
    if headers.len() == 0 {
        seq![]
    } else {
        include_lines(headers.drop_last()) + "#include <"@ + headers.last()@ + ">\n"@
    }
}

/// A program that compiles only when the header `name` can be included
/// (cmake's `CheckIncludeFile`).
pub fn include_check_code(name: &str) -> (r: String)
    ensures
        r@ == "\n#include <"@ + name@ + ">\nint main(void) { return 0; }\n"@,
{
    let mut code = String::from_str("\n#include <");
    code.append(name);
    code.append(">\nint main(void) { return 0; }\n");
    code
}

/// A program that compiles only when `symbol` is declared, as a macro or
/// otherwise, after including `headers` (cmake's `CheckSymbolExists`).
pub fn symbol_check_code(headers: &[&str], symbol: &str) -> (r: String)
    ensures
        r@ == include_lines(headers@) + "\nint main(int argc, char** argv) {\n    (void)argv;\n    #ifndef "@
            + symbol@ + "\n    return ((int*)(&"@ + symbol@ + "))[argc];\n    #else\n    (void)argc;\n    return 0;\n    #endif\n}\n"@,
{
    let mut code = String::new();
    for i in 0..headers.len()
        invariant
            code@ == include_lines(headers@.take(i as int)),
    {
        code.append("#include <");
        code.append(headers[i]);
        code.append(">\n");
        assert(headers@.take(i + 1).drop_last() == headers@.take(i as int));
    }
    assert(headers@.take(headers.len() as int) == headers@);
    code.append("\nint main(int argc, char** argv) {\n    (void)argv;\n    #ifndef ");
    code.append(symbol);
    code.append("\n    return ((int*)(&");
    code.append(symbol);
    code.append("))[argc];\n    #else\n    (void)argc;\n    return 0;\n    #endif\n}\n");
    code
}

/// A program that compiles only when the pthread statement `call` does,
/// with `thread_id` in scope; used to learn how threads are named.
pub fn thread_name_check_code(call: &str) -> (r: String)
    ensures
        r@ == "\n#define _GNU_SOURCE\n#include <pthread.h>\n\n#if defined(__FreeBSD__) || defined(__NetBSD__) || defined(__OpenBSD__)\n#include <pthread_np.h>\n#endif\n\nint main() {\n    pthread_t thread_id;\n    "@
            + call@ + "\n}\n"@,
{
    let mut code = String::from_str(
        "\n#define _GNU_SOURCE\n#include <pthread.h>\n\n#if defined(__FreeBSD__) || defined(__NetBSD__) || defined(__OpenBSD__)\n#include <pthread_np.h>\n#endif\n\nint main() {\n    pthread_t thread_id;\n    ",
    );
    code.append(call);
    code.append("\n}\n");
    code
}

} // verus!
