use aleph_syntax_tree::syntax::AlephTree;
use constant_folding::env::Env;
use constant_folding::eval::{eval_binary, eval_branch, eval_int, eval_unary, FoldError};
use constant_folding::floats::{FloatOp, FloatQuery, FloatTable};
use constant_folding::fold::{constant_folding, constant_folding_list, transform};
use constant_folding::tree::{is_simple, BinaryOp, SimpleKind, Tree, UnaryOp};

fn simple(kind: SimpleKind, value: &str) -> Tree {
    Tree::Simple { kind, value: value.to_string() }
}

fn lit_int(value: &str) -> Tree {
    simple(SimpleKind::Int, value)
}

fn lit_float(value: &str) -> Tree {
    simple(SimpleKind::Float, value)
}

fn lit_bool(value: &str) -> Tree {
    simple(SimpleKind::Bool, value)
}

fn lit_text(value: &str) -> Tree {
    simple(SimpleKind::Text, value)
}

fn ident(value: &str) -> Tree {
    simple(SimpleKind::Ident, value)
}

fn var(name: &str) -> Tree {
    Tree::Var { var: name.to_string(), is_pointer: "false".to_string() }
}

fn unit() -> Tree {
    Tree::Other(AlephTree::Unit)
}

fn bin(op: BinaryOp, left: Tree, right: Tree) -> Tree {
    Tree::Binary { op, left: Box::new(left), right: Box::new(right) }
}

fn un(op: UnaryOp, expr: Tree) -> Tree {
    Tree::Unary { op, expr: Box::new(expr) }
}

fn let_in(name: &str, value: Tree, expr: Tree) -> Tree {
    Tree::Let {
        var: name.to_string(),
        is_pointer: "false".to_string(),
        value: Box::new(value),
        expr: Box::new(expr),
    }
}

fn stmts(a: Tree, b: Tree) -> Tree {
    Tree::Stmts { expr1: Box::new(a), expr2: Box::new(b) }
}

fn cond(c: Tree, t: Tree, e: Tree) -> Tree {
    Tree::If { condition: Box::new(c), then_branch: Box::new(t), els: Box::new(e) }
}

fn app(args: Vec<Tree>) -> Tree {
    Tree::App {
        object_name: "obj".to_string(),
        fun: Box::new(ident("f")),
        param_list: args.into_iter().map(Box::new).collect(),
    }
}

fn run(t: Tree) -> Result<Tree, FoldError> {
    transform(t, &FloatTable::new())
}

fn query(op: FloatOp, left: &str, right: &str) -> FloatQuery {
    FloatQuery { op, left: left.to_string(), right: right.to_string() }
}

#[test]
fn adds_integer_literals() {
    assert_eq!(run(bin(BinaryOp::Add, lit_int("2"), lit_int("3"))), Ok(lit_int("5")));
}

#[test]
fn subtracts_multiplies_and_divides_integer_literals() {
    assert_eq!(run(bin(BinaryOp::Sub, lit_int("2"), lit_int("3"))), Ok(lit_int("-1")));
    assert_eq!(run(bin(BinaryOp::Mul, lit_int("-4"), lit_int("6"))), Ok(lit_int("-24")));
    assert_eq!(run(bin(BinaryOp::Div, lit_int("7"), lit_int("2"))), Ok(lit_int("3")));
    assert_eq!(run(bin(BinaryOp::Div, lit_int("-7"), lit_int("2"))), Ok(lit_int("-3")));
    assert_eq!(run(bin(BinaryOp::Div, lit_int("7"), lit_int("-2"))), Ok(lit_int("-3")));
    assert_eq!(run(bin(BinaryOp::Div, lit_int("-7"), lit_int("-2"))), Ok(lit_int("3")));
}

#[test]
fn integer_results_are_written_in_canonical_decimal() {
    assert_eq!(run(bin(BinaryOp::Add, lit_int("007"), lit_int("+1"))), Ok(lit_int("8")));
}

#[test]
fn eval_int_gives_exact_results() {
    assert_eq!(eval_int(BinaryOp::Add, 40, 2), Some(42));
    assert_eq!(eval_int(BinaryOp::Sub, 40, 42), Some(-2));
    assert_eq!(eval_int(BinaryOp::Mul, -6, 7), Some(-42));
    assert_eq!(eval_int(BinaryOp::Div, -9, 2), Some(-4));
    assert_eq!(eval_int(BinaryOp::Div, 9, 0), None);
    assert_eq!(eval_int(BinaryOp::Add, i64::MAX, 1), None);
    assert_eq!(eval_int(BinaryOp::Sub, i64::MIN, 1), None);
    assert_eq!(eval_int(BinaryOp::Mul, i64::MAX, 2), None);
    assert_eq!(eval_int(BinaryOp::Div, i64::MIN, -1), None);
    assert_eq!(eval_int(BinaryOp::And, 1, 1), None);
}

#[test]
fn integer_division_by_zero_is_an_arithmetic_fault() {
    assert_eq!(run(bin(BinaryOp::Div, lit_int("1"), lit_int("0"))), Err(FoldError::ArithmeticFault));
}

#[test]
fn integer_overflow_is_an_arithmetic_fault() {
    assert_eq!(
        run(bin(BinaryOp::Add, lit_int("9223372036854775807"), lit_int("1"))),
        Err(FoldError::ArithmeticFault)
    );
    assert_eq!(
        run(un(UnaryOp::Neg, lit_int("-9223372036854775808"))),
        Err(FoldError::ArithmeticFault)
    );
}

#[test]
fn malformed_integer_text_is_a_malformed_literal() {
    assert_eq!(run(bin(BinaryOp::Add, lit_int("x"), lit_int("1"))), Err(FoldError::MalformedLiteral));
    assert_eq!(run(bin(BinaryOp::Mul, lit_int("1"), lit_int("1.5"))), Err(FoldError::MalformedLiteral));
    assert_eq!(run(un(UnaryOp::Neg, lit_int(""))), Err(FoldError::MalformedLiteral));
}

#[test]
fn malformed_boolean_text_is_a_malformed_literal() {
    assert_eq!(
        run(bin(BinaryOp::And, lit_bool("yes"), lit_bool("true"))),
        Err(FoldError::MalformedLiteral)
    );
    assert_eq!(run(un(UnaryOp::Not, lit_bool("1"))), Err(FoldError::MalformedLiteral));
}

#[test]
fn float_arithmetic_asks_for_the_result_it_lacks() {
    assert_eq!(
        run(bin(BinaryOp::Add, lit_float("1.5"), lit_int("2"))),
        Err(FoldError::FloatPending(query(FloatOp::Add, "1.5", "2")))
    );
    assert_eq!(
        run(un(UnaryOp::Neg, lit_float("1.5"))),
        Err(FoldError::FloatPending(query(FloatOp::Neg, "1.5", "")))
    );
}

#[test]
fn float_arithmetic_takes_the_result_from_the_table() {
    let mut table = FloatTable::new();
    table.record(query(FloatOp::Add, "1.5", "2"), "3.5".to_string());
    table.record(query(FloatOp::Div, "1", "0.5"), "2".to_string());
    table.record(query(FloatOp::Neg, "3.5", ""), "-3.5".to_string());
    assert_eq!(transform(bin(BinaryOp::Add, lit_float("1.5"), lit_int("2")), &table), Ok(lit_float("3.5")));
    assert_eq!(transform(bin(BinaryOp::Div, lit_int("1"), lit_float("0.5")), &table), Ok(lit_float("2")));
    assert_eq!(
        transform(un(UnaryOp::Neg, bin(BinaryOp::Add, lit_float("1.5"), lit_int("2"))), &table),
        Ok(lit_float("-3.5"))
    );
    assert_eq!(
        transform(bin(BinaryOp::Sub, lit_float("1.5"), lit_int("2")), &table),
        Err(FoldError::FloatPending(query(FloatOp::Sub, "1.5", "2")))
    );
}

#[test]
fn a_later_float_fact_hides_an_earlier_one() {
    let mut table = FloatTable::new();
    table.record(query(FloatOp::Mul, "2.0", "2.0"), "5".to_string());
    table.record(query(FloatOp::Mul, "2.0", "2.0"), "4".to_string());
    assert_eq!(
        table.lookup(FloatOp::Mul, &"2.0".to_string(), &"2.0".to_string()),
        Some("4".to_string())
    );
    assert_eq!(table.lookup(FloatOp::Add, &"2.0".to_string(), &"2.0".to_string()), None);
}

#[test]
fn arithmetic_on_other_literals_is_kept() {
    assert_eq!(
        run(bin(BinaryOp::Add, lit_bool("true"), lit_int("1"))),
        Ok(bin(BinaryOp::Add, lit_bool("true"), lit_int("1")))
    );
    assert_eq!(
        run(bin(BinaryOp::Add, var("x"), lit_int("1"))),
        Ok(bin(BinaryOp::Add, var("x"), lit_int("1")))
    );
}

#[test]
fn and_of_true_and_false_is_false() {
    assert_eq!(run(bin(BinaryOp::And, lit_bool("true"), lit_bool("false"))), Ok(lit_bool("false")));
}

#[test]
fn or_of_false_and_true_is_true() {
    assert_eq!(run(bin(BinaryOp::Or, lit_bool("false"), lit_bool("true"))), Ok(lit_bool("true")));
}

#[test]
fn not_inverts_a_boolean_literal() {
    assert_eq!(run(un(UnaryOp::Not, lit_bool("true"))), Ok(lit_bool("false")));
    assert_eq!(run(un(UnaryOp::Not, lit_bool("false"))), Ok(lit_bool("true")));
    assert_eq!(run(un(UnaryOp::Not, var("b"))), Ok(un(UnaryOp::Not, var("b"))));
}

#[test]
fn neg_negates_an_integer_literal() {
    assert_eq!(run(un(UnaryOp::Neg, lit_int("5"))), Ok(lit_int("-5")));
    assert_eq!(run(un(UnaryOp::Neg, lit_int("-5"))), Ok(lit_int("5")));
    assert_eq!(run(un(UnaryOp::Neg, lit_bool("true"))), Ok(un(UnaryOp::Neg, lit_bool("true"))));
}

#[test]
fn true_condition_takes_the_first_branch() {
    let t = cond(lit_bool("true"), bin(BinaryOp::Add, lit_int("1"), lit_int("2")), var("y"));
    assert_eq!(run(t), Ok(lit_int("3")));
}

#[test]
fn false_condition_takes_the_second_branch() {
    let t = cond(lit_bool("false"), var("y"), bin(BinaryOp::Mul, lit_int("2"), lit_int("2")));
    assert_eq!(run(t), Ok(lit_int("4")));
}

#[test]
fn unknown_condition_keeps_the_conditional_with_folded_parts() {
    let t = cond(var("c"), bin(BinaryOp::Add, lit_int("1"), lit_int("2")), lit_int("0"));
    assert_eq!(run(t), Ok(cond(var("c"), lit_int("3"), lit_int("0"))));
    let named = cond(ident("true"), lit_int("1"), lit_int("0"));
    assert_eq!(run(named), Ok(cond(ident("true"), lit_int("1"), lit_int("0"))));
}

#[test]
fn a_folded_comparison_decides_a_conditional() {
    let t = cond(bin(BinaryOp::Eq, lit_int("1"), lit_int("1")), lit_int("10"), lit_int("20"));
    assert_eq!(run(t), Ok(lit_int("10")));
}

#[test]
fn a_constant_binding_reaches_the_next_statement() {
    let t = stmts(let_in("x", lit_int("5"), unit()), bin(BinaryOp::Add, var("x"), lit_int("3")));
    assert_eq!(run(t), Ok(stmts(let_in("x", lit_int("5"), unit()), lit_int("8"))));
}

#[test]
fn a_constant_binding_leaves_its_own_body_unfolded() {
    let t = let_in("x", lit_int("5"), bin(BinaryOp::Add, lit_int("1"), lit_int("2")));
    let env = Env::new();
    let (tree, after) = constant_folding(t, &env, &FloatTable::new()).unwrap();
    assert_eq!(tree, let_in("x", lit_int("5"), bin(BinaryOp::Add, lit_int("1"), lit_int("2"))));
    assert_eq!(constant_folding::env::find("x", &after), Some("5".to_string()));
}

#[test]
fn a_binding_of_a_folded_value_is_recorded() {
    let t = stmts(
        let_in("x", bin(BinaryOp::Mul, lit_int("2"), lit_int("3")), unit()),
        bin(BinaryOp::Sub, var("x"), lit_int("1")),
    );
    assert_eq!(run(t), Ok(stmts(let_in("x", lit_int("6"), unit()), lit_int("5"))));
}

#[test]
fn a_binding_of_an_unknown_value_folds_its_body() {
    let t = let_in("x", var("y"), bin(BinaryOp::Add, lit_int("1"), lit_int("2")));
    let env = Env::new();
    let (tree, after) = constant_folding(t, &env, &FloatTable::new()).unwrap();
    assert_eq!(tree, let_in("x", var("y"), lit_int("3")));
    assert!(!constant_folding::env::in_env("x", &after));
}

#[test]
fn a_binding_of_a_string_literal_is_visible_in_its_body() {
    let t = let_in("s", lit_text("hi"), var("s"));
    assert_eq!(run(t), Ok(let_in("s", lit_text("hi"), lit_int("hi"))));
}

#[test]
fn a_value_whose_text_is_bound_stands_for_that_binding() {
    let t = stmts(let_in("a", lit_int("1"), unit()), let_in("b", lit_text("a"), unit()));
    let env = Env::new();
    let (tree, after) = constant_folding(t, &env, &FloatTable::new()).unwrap();
    assert_eq!(tree, stmts(let_in("a", lit_int("1"), unit()), let_in("b", lit_int("1"), unit())));
    assert_eq!(constant_folding::env::find("b", &after), Some("a".to_string()));
}

#[test]
fn a_bound_identifier_becomes_an_integer_literal() {
    let env = constant_folding::env::add_var("n".to_string(), &lit_float("2.5"), &Env::new());
    let (tree, after) = constant_folding(ident("n"), &env, &FloatTable::new()).unwrap();
    assert_eq!(tree, lit_int("2.5"));
    assert_eq!(after, env);
    let (other, _) = constant_folding(ident("m"), &env, &FloatTable::new()).unwrap();
    assert_eq!(other, ident("m"));
}

#[test]
fn different_identifiers_are_not_compared() {
    assert_eq!(
        run(bin(BinaryOp::Eq, ident("a"), ident("b"))),
        Ok(bin(BinaryOp::Eq, ident("a"), ident("b")))
    );
    assert_eq!(
        run(bin(BinaryOp::LE, ident("a"), ident("b"))),
        Ok(bin(BinaryOp::LE, ident("a"), ident("b")))
    );
    assert_eq!(
        run(bin(BinaryOp::Eq, ident("a"), lit_int("1"))),
        Ok(bin(BinaryOp::Eq, ident("a"), lit_int("1")))
    );
}

#[test]
fn the_same_identifier_compares_true() {
    assert_eq!(run(bin(BinaryOp::Eq, ident("a"), ident("a"))), Ok(lit_bool("true")));
    assert_eq!(run(bin(BinaryOp::LE, ident("a"), ident("a"))), Ok(lit_bool("true")));
}

#[test]
fn literals_are_compared_by_their_texts() {
    assert_eq!(run(bin(BinaryOp::Eq, lit_int("1"), lit_int("1"))), Ok(lit_bool("true")));
    assert_eq!(run(bin(BinaryOp::Eq, lit_int("1"), lit_int("2"))), Ok(lit_bool("false")));
    assert_eq!(run(bin(BinaryOp::Eq, lit_int("1"), lit_text("1"))), Ok(lit_bool("true")));
    assert_eq!(run(bin(BinaryOp::LE, lit_int("1"), lit_int("2"))), Ok(lit_bool("true")));
    assert_eq!(run(bin(BinaryOp::LE, lit_int("2"), lit_int("1"))), Ok(lit_bool("false")));
    assert_eq!(run(bin(BinaryOp::LE, lit_int("10"), lit_int("9"))), Ok(lit_bool("true")));
    assert_eq!(run(bin(BinaryOp::LE, lit_text("b"), lit_text("a"))), Ok(lit_bool("false")));
    assert_eq!(run(bin(BinaryOp::LE, lit_text("ab"), lit_text("a"))), Ok(lit_bool("false")));
    assert_eq!(run(bin(BinaryOp::LE, lit_text(""), lit_text("a"))), Ok(lit_bool("true")));
    assert_eq!(run(bin(BinaryOp::LE, lit_text("z"), lit_text("\u{e9}"))), Ok(lit_bool("true")));
}

#[test]
fn a_comparison_of_compound_operands_is_kept() {
    assert_eq!(
        run(bin(BinaryOp::Eq, var("x"), lit_int("1"))),
        Ok(bin(BinaryOp::Eq, var("x"), lit_int("1")))
    );
}

#[test]
fn a_second_pass_changes_nothing() {
    let make = || {
        stmts(
            let_in("x", bin(BinaryOp::Add, lit_int("2"), lit_int("3")), unit()),
            cond(
                bin(BinaryOp::LE, var("x"), var("limit")),
                app(vec![var("x"), bin(BinaryOp::Mul, var("x"), lit_int("2"))]),
                un(UnaryOp::Neg, var("x")),
            ),
        )
    };
    let once = run(make()).unwrap();
    let again = run(run(make()).unwrap()).unwrap();
    assert_eq!(again, once);
    assert_eq!(
        once,
        stmts(
            let_in("x", lit_int("5"), unit()),
            cond(
                bin(BinaryOp::LE, lit_int("5"), var("limit")),
                app(vec![lit_int("5"), lit_int("10")]),
                lit_int("-5"),
            ),
        )
    );
}

#[test]
fn a_branch_that_binds_nothing_leaves_the_environment() {
    let t = stmts(cond(var("c"), lit_int("1"), lit_int("2")), var("y"));
    assert_eq!(run(t), Ok(stmts(cond(var("c"), lit_int("1"), lit_int("2")), var("y"))));
}

#[test]
fn a_binding_made_in_a_branch_is_seen_after_the_conditional() {
    let t = stmts(cond(var("c"), let_in("y", lit_int("1"), unit()), unit()), var("y"));
    assert_eq!(
        run(t),
        Ok(stmts(cond(var("c"), let_in("y", lit_int("1"), unit()), unit()), lit_int("1")))
    );
}

#[test]
fn the_second_branch_is_folded_after_the_first() {
    let t = cond(var("c"), let_in("y", lit_int("1"), unit()), var("y"));
    assert_eq!(run(t), Ok(cond(var("c"), let_in("y", lit_int("1"), unit()), lit_int("1"))));
}

#[test]
fn other_nodes_pass_through_unchanged() {
    let node = AlephTree::Return { value: Box::new(AlephTree::Int { value: "1".to_string() }) };
    let env = constant_folding::env::add_var("x".to_string(), &lit_int("1"), &Env::new());
    let (tree, after) =
        constant_folding(Tree::Other(node.clone()), &env, &FloatTable::new()).unwrap();
    assert_eq!(tree, Tree::Other(node));
    assert_eq!(after, env);
    assert_eq!(run(unit()), Ok(unit()));
}

#[test]
fn literals_pass_through_unchanged() {
    assert_eq!(run(lit_int("12")), Ok(lit_int("12")));
    assert_eq!(run(lit_float("1.50")), Ok(lit_float("1.50")));
    assert_eq!(run(lit_bool("maybe")), Ok(lit_bool("maybe")));
    assert_eq!(run(lit_text("x")), Ok(lit_text("x")));
}

#[test]
fn call_arguments_are_folded_in_order() {
    let t = app(vec![
        let_in("x", lit_int("2"), unit()),
        bin(BinaryOp::Add, var("x"), lit_int("1")),
        var("z"),
    ]);
    assert_eq!(run(t), Ok(app(vec![let_in("x", lit_int("2"), unit()), lit_int("3"), var("z")])));
    assert_eq!(run(app(vec![])), Ok(app(vec![])));
}

#[test]
fn a_fault_in_an_argument_stops_the_list() {
    let list = vec![
        Box::new(lit_int("1")),
        Box::new(bin(BinaryOp::Div, lit_int("1"), lit_int("0"))),
        Box::new(bin(BinaryOp::Add, lit_int("x"), lit_int("0"))),
    ];
    assert_eq!(
        constant_folding_list(list, &Env::new(), &FloatTable::new()),
        Err(FoldError::ArithmeticFault)
    );
}

#[test]
fn a_list_threads_the_environment() {
    let list = vec![Box::new(let_in("k", lit_int("7"), unit())), Box::new(var("k"))];
    let (out, after) = constant_folding_list(list, &Env::new(), &FloatTable::new()).unwrap();
    assert_eq!(out, vec![Box::new(let_in("k", lit_int("7"), unit())), Box::new(lit_int("7"))]);
    assert_eq!(constant_folding::env::find("k", &after), Some("7".to_string()));
}

#[test]
fn operands_thread_the_environment_left_to_right() {
    let t = bin(BinaryOp::Add, let_in("x", lit_int("1"), unit()), var("x"));
    assert_eq!(run(t), Ok(bin(BinaryOp::Add, let_in("x", lit_int("1"), unit()), lit_int("1"))));
    let u = bin(BinaryOp::Add, var("x"), let_in("x", lit_int("1"), unit()));
    assert_eq!(run(u), Ok(bin(BinaryOp::Add, var("x"), let_in("x", lit_int("1"), unit()))));
}

#[test]
fn simple_nodes_are_literals_and_identifiers() {
    assert!(is_simple(&lit_int("1")));
    assert!(is_simple(&lit_float("1.0")));
    assert!(is_simple(&lit_bool("true")));
    assert!(is_simple(&lit_text("s")));
    assert!(is_simple(&ident("i")));
    assert!(!is_simple(&var("v")));
    assert!(!is_simple(&unit()));
    assert!(!is_simple(&bin(BinaryOp::Add, lit_int("1"), lit_int("2"))));
}

#[test]
fn operators_on_folded_operands() {
    let table = FloatTable::new();
    assert_eq!(eval_unary(UnaryOp::Neg, lit_int("3"), &table), Ok(lit_int("-3")));
    assert_eq!(eval_binary(BinaryOp::Sub, lit_int("3"), lit_int("5"), &table), Ok(lit_int("-2")));
    assert_eq!(eval_binary(BinaryOp::Or, lit_bool("false"), lit_bool("false"), &table), Ok(lit_bool("false")));
    assert_eq!(eval_branch(lit_bool("true"), lit_int("1"), lit_int("2")), lit_int("1"));
    assert_eq!(eval_branch(lit_text("false"), lit_int("1"), lit_int("2")), lit_int("2"));
    assert_eq!(eval_branch(lit_int("1"), lit_int("1"), lit_int("2")), cond(lit_int("1"), lit_int("1"), lit_int("2")));
}

#[test]
fn integer_texts_take_a_sign_and_digits_only() {
    assert_eq!(run(bin(BinaryOp::Add, lit_int("+5"), lit_int("-0"))), Ok(lit_int("5")));
    assert_eq!(run(bin(BinaryOp::Add, lit_int("--5"), lit_int("1"))), Err(FoldError::MalformedLiteral));
    assert_eq!(run(bin(BinaryOp::Add, lit_int("+"), lit_int("1"))), Err(FoldError::MalformedLiteral));
    assert_eq!(run(bin(BinaryOp::Add, lit_int(" 5"), lit_int("1"))), Err(FoldError::MalformedLiteral));
    assert_eq!(run(bin(BinaryOp::Add, lit_int("5_0"), lit_int("1"))), Err(FoldError::MalformedLiteral));
    assert_eq!(
        run(bin(BinaryOp::Add, lit_int("9223372036854775808"), lit_int("1"))),
        Err(FoldError::MalformedLiteral)
    );
    assert_eq!(
        run(bin(BinaryOp::Add, lit_int("-9223372036854775808"), lit_int("0000000000000000000001"))),
        Ok(lit_int("-9223372036854775807"))
    );
    assert_eq!(run(bin(BinaryOp::Sub, lit_int("100"), lit_int("100"))), Ok(lit_int("0")));
}

#[test]
fn one_pass_settles_a_tree_without_bindings() {
    let make = || {
        cond(
            bin(BinaryOp::Eq, ident("a"), ident("b")),
            bin(BinaryOp::Add, bin(BinaryOp::Mul, lit_int("2"), lit_int("3")), var("n")),
            app(vec![un(UnaryOp::Not, bin(BinaryOp::LE, lit_int("1"), lit_int("2")))]),
        )
    };
    let once = run(make()).unwrap();
    assert_eq!(
        once,
        cond(
            bin(BinaryOp::Eq, ident("a"), ident("b")),
            bin(BinaryOp::Add, lit_int("6"), var("n")),
            app(vec![lit_bool("false")]),
        )
    );
    assert_eq!(run(run(make()).unwrap()), Ok(once));
}

#[test]
fn a_second_pass_can_resolve_a_chain_of_names_further() {
    let make = |third: Tree| {
        stmts(
            stmts(let_in("a", ident("b"), unit()), let_in("b", ident("c"), unit())),
            third,
        )
    };
    let once = run(make(let_in("x", lit_text("a"), unit()))).unwrap();
    assert_eq!(once, make(let_in("x", lit_int("b"), unit())));
    let twice = run(once).unwrap();
    assert_eq!(twice, make(let_in("x", lit_int("c"), unit())));
    assert_eq!(run(make(let_in("x", lit_int("c"), unit()))), Ok(twice));
}
