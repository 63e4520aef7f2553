use vstd::prelude::*;

verus! {

/// The operation names, in the order in which they are listed.
pub open spec fn listed_operations() -> Seq<Seq<char>> {
    seq!["add"@, "mul"@]
}

/// The operation names that the runners accept.
pub open spec fn is_supported_operation(op: Seq<char>) -> bool {
    op == "add"@ || op == "mul"@
}

/// What running the operation named `op` on `a` and `b` yields.
pub open spec fn operation_result(op: Seq<char>, a: int, b: int) -> int {
    if op == "add"@ {
        a + b
    } else {
        a * b
    }
}

/// Whether running the supported operation `op` on `a` and `b` stays within `u32`.
pub open spec fn operation_fits(op: Seq<char>, a: int, b: int) -> bool {
    is_supported_operation(op) && 0 <= operation_result(op, a, b) <= u32::MAX
}

/// Lists the names of the operations, as `String`s.
fn operation_names() -> (names: Vec<String>)
    ensures
        names.len() == listed_operations().len(),
        forall|i: int| 0 <= i < names.len() ==> #[trigger] names[i]@ == listed_operations()[i],
{
    let mut names: Vec<String> = Vec::new();
    names.push(String::from_str("add"));
    names.push(String::from_str("mul"));
    names
}

/// Applies the operation named `op` to `a` and `b`: "add" adds, "mul" multiplies.
/// Any other name, and a result beyond `u32`, is a caller error.
pub fn run_operation(op: String, a: u32, b: u32) -> (r: u32)
    requires
        operation_fits(op@, a as int, b as int),
    ensures
        r == operation_result(op@, a as int, b as int),
        op@ == "add"@ ==> r == a + b,
        op@ == "mul"@ ==> r == a * b,
{
    proof {
        lemma_add_is_not_mul();
    }
    let add = String::from_str("add");
    if op == add {
        a + b
    } else {
        assert(a * b == operation_result(op@, a as int, b as int));
        a * b
    }
}

/// Lists the names of the operations that `run_operation` accepts.
pub fn list_operations() -> (names: Vec<String>)
    ensures
        names.len() == listed_operations().len(),
        forall|i: int| 0 <= i < names.len() ==> #[trigger] names[i]@ == listed_operations()[i],
{
    operation_names()
}

/// Adds `a` and `b` through `run_operation`.
pub fn run_add(a: u32, b: u32) -> (r: u32)
    requires
        a + b <= u32::MAX,
    ensures
        r == operation_result("add"@, a as int, b as int),
        r == a + b,
{
    run_operation(String::from_str("add"), a, b)
}

/// Multiplies `a` and `b` through `run_operation`.
pub fn run_mul(a: u32, b: u32) -> (r: u32)
    requires
        a * b <= u32::MAX,
    ensures
        r == operation_result("mul"@, a as int, b as int),
        r == a * b,
{
    proof {
        lemma_add_is_not_mul();
    }
    run_operation(String::from_str("mul"), a, b)
}

/// A runner of the listed operations.
pub struct Runner;

impl Runner {
    /// Lists the names of the operations that `run_operation` accepts.
    pub fn list_operations(&self) -> (names: Vec<String>)
        ensures
            names.len() == listed_operations().len(),
            forall|i: int|
                0 <= i < names.len() ==> #[trigger] names[i]@ == listed_operations()[i],
    {
        operation_names()
    }

    /// Applies the operation named `op` to `a` and `b`: "add" adds, "mul" multiplies.
    pub fn run_operation(&self, op: String, a: u32, b: u32) -> (r: u32)
        requires
            operation_fits(op@, a as int, b as int),
        ensures
            r == operation_result(op@, a as int, b as int),
            op@ == "add"@ ==> r == a + b,
            op@ == "mul"@ ==> r == a * b,
    {
        run_operation(op, a, b)
    }
}

/// One method per listed operation, each running that operation by name.
pub trait RunnerExtended {
    fn run_add(&self, a: u32, b: u32) -> (r: u32)
        requires
            a + b <= u32::MAX,
        ensures
            r == operation_result("add"@, a as int, b as int),
            r == a + b,
    ;

    fn run_mul(&self, a: u32, b: u32) -> (r: u32)
        requires
            a * b <= u32::MAX,
        ensures
            r == operation_result("mul"@, a as int, b as int),
            r == a * b,
    ;
}

impl RunnerExtended for Runner {
    fn run_add(&self, a: u32, b: u32) -> (r: u32) {
        self.run_operation(String::from_str("add"), a, b)
    }

    fn run_mul(&self, a: u32, b: u32) -> (r: u32) {
        proof {
            lemma_add_is_not_mul();
        }
        self.run_operation(String::from_str("mul"), a, b)
    }
}

/// The two operation names differ.
proof fn lemma_add_is_not_mul()
    ensures
        "add"@ != "mul"@,
{
    reveal_strlit("add");
    reveal_strlit("mul");
    assert("add"@[0] != "mul"@[0]);
}

/// Every listed operation is accepted by `run_operation`, every accepted operation is
/// listed, and no operation is listed twice.
pub proof fn lemma_listed_operations_are_exactly_the_supported_ones()
    ensures
        forall|i: int|
            0 <= i < listed_operations().len() ==> is_supported_operation(
                #[trigger] listed_operations()[i],
            ),
        forall|op: Seq<char>|
            is_supported_operation(op) ==> #[trigger] listed_operations().contains(op),
        listed_operations().no_duplicates(),
{
    lemma_add_is_not_mul();
    assert forall|op: Seq<char>| is_supported_operation(op) implies #[trigger] listed_operations().contains(op) by {
        if op == "add"@ {
            assert(listed_operations()[0] == op);
        } else {
            assert(listed_operations()[1] == op);
        }
    }
}

} // verus!
