use mrp_discount::cart::{Cart, CartLine, DiscountClass, EngineError, Merchandise};
use mrp_discount::gen_one::{run, DiscountApplicationStrategy, RunInput, Target, Value};
use mrp_discount::gen_two::{
    cart_lines_discounts_generate_run, max_cart_line, CartOperation, DiscountContext,
    GenerateRunInput,
};

fn variant_line(id: &str, total: &str, subtotal: &str, mrp: Option<&str>) -> CartLine {
    CartLine {
        total_amount: total.to_string(),
        subtotal_amount: subtotal.to_string(),
        merchandise: Merchandise::ProductVariant {
            id: id.to_string(),
            compare_at_price: mrp.map(|s| s.to_string()),
        },
    }
}

fn two_eligible_lines() -> Vec<CartLine> {
    vec![
        variant_line("gid://shop/ProductVariant/1", "130.00", "130.00", Some("150.00")),
        variant_line("gid://shop/ProductVariant/2", "80.00", "80.00", Some("100.00")),
    ]
}

fn gen_two_input(lines: Vec<CartLine>, classes: Vec<DiscountClass>) -> GenerateRunInput {
    GenerateRunInput {
        cart: Cart { lines },
        discount: DiscountContext { discount_classes: classes },
    }
}

#[test]
fn run_discounts_every_eligible_line() {
    let input = RunInput { cart: Cart { lines: two_eligible_lines() } };
    let out = run(&input).unwrap();
    assert_eq!(out.discount_application_strategy, DiscountApplicationStrategy::All);
    assert_eq!(out.discounts.len(), 2);

    let first = &out.discounts[0];
    assert_eq!(first.message, Some("25% off MRP".to_string()));
    assert_eq!(first.targets.len(), 1);
    let Target::ProductVariant(t) = &first.targets[0];
    assert_eq!(t.id, "gid://shop/ProductVariant/1");
    assert_eq!(t.quantity, None);
    let Value::FixedAmount(v) = &first.value;
    assert_eq!(v.amount.units, 17_500_000); // 17.50
    assert!(!v.applies_to_each_item);

    let Value::FixedAmount(v) = &out.discounts[1].value;
    assert_eq!(v.amount.units, 5_000_000); // 80.00 - 75.00
}

#[test]
fn scenario_unparseable_line_skipped_without_failure() {
    let mut lines = vec![variant_line(
        "gid://shop/ProductVariant/7",
        "abc",
        "abc",
        Some("150.00"),
    )];
    lines.extend(two_eligible_lines());
    let input = RunInput { cart: Cart { lines } };
    let out = run(&input).unwrap();
    assert_eq!(out.discounts.len(), 2);
    let Target::ProductVariant(t) = &out.discounts[0].targets[0];
    assert_eq!(t.id, "gid://shop/ProductVariant/1");
}

#[test]
fn run_on_empty_cart_yields_empty_batch() {
    let input = RunInput { cart: Cart { lines: vec![] } };
    let out = run(&input).unwrap();
    assert_eq!(out.discounts.len(), 0);
}

#[test]
fn run_is_idempotent() {
    let input = RunInput { cart: Cart { lines: two_eligible_lines() } };
    assert_eq!(run(&input), run(&input));
}

#[test]
fn generate_run_is_idempotent() {
    let input = gen_two_input(two_eligible_lines(), vec![DiscountClass::Product]);
    assert_eq!(
        cart_lines_discounts_generate_run(&input),
        cart_lines_discounts_generate_run(&input)
    );
}

#[test]
fn scenario_only_order_class_yields_empty_batch() {
    let input = gen_two_input(two_eligible_lines(), vec![DiscountClass::Order]);
    let out = cart_lines_discounts_generate_run(&input).unwrap();
    assert_eq!(out.operations.len(), 0);
}

#[test]
fn no_permitted_classes_yields_empty_batch() {
    let input = gen_two_input(two_eligible_lines(), vec![]);
    let out = cart_lines_discounts_generate_run(&input).unwrap();
    assert_eq!(out.operations.len(), 0);
}

#[test]
fn product_class_yields_one_operation_per_eligible_line() {
    let input = gen_two_input(
        two_eligible_lines(),
        vec![DiscountClass::Order, DiscountClass::Product],
    );
    let out = cart_lines_discounts_generate_run(&input).unwrap();
    assert_eq!(out.operations.len(), 2);

    let CartOperation::ProductDiscountsAdd(add) = &out.operations[0];
    assert_eq!(
        add.selection_strategy,
        mrp_discount::gen_two::ProductDiscountSelectionStrategy::All
    );
    assert_eq!(add.candidates.len(), 1);
    let c = &add.candidates[0];
    assert_eq!(c.message, Some("25% off MRP".to_string()));
    assert_eq!(c.targets.len(), 1);
    let mrp_discount::gen_two::ProductDiscountCandidateTarget::ProductVariant { id, quantity } =
        &c.targets[0];
    assert_eq!(id, "gid://shop/ProductVariant/1");
    assert_eq!(*quantity, None);
    let mrp_discount::gen_two::ProductDiscountCandidateValue::FixedAmount {
        amount,
        applies_to_each_item,
    } = &c.value;
    assert_eq!(amount.units, 17_500_000);
    assert!(!applies_to_each_item);

    let CartOperation::ProductDiscountsAdd(add) = &out.operations[1];
    let mrp_discount::gen_two::ProductDiscountCandidateValue::FixedAmount { amount, .. } =
        &add.candidates[0].value;
    assert_eq!(amount.units, 5_000_000);
}

#[test]
fn generate_run_fails_on_empty_cart() {
    let input = gen_two_input(vec![], vec![DiscountClass::Product]);
    let err = cart_lines_discounts_generate_run(&input).unwrap_err();
    assert_eq!(err, EngineError::EmptyCart);
    assert_eq!(err.describe(), "No cart lines found");
}

#[test]
fn ineligible_lines_yield_empty_batch_with_product_class() {
    let lines = vec![variant_line(
        "gid://shop/ProductVariant/1",
        "100.00",
        "100.00",
        Some("150.00"),
    )];
    let input = gen_two_input(lines, vec![DiscountClass::Product]);
    let out = cart_lines_discounts_generate_run(&input).unwrap();
    assert_eq!(out.operations.len(), 0);
}

#[test]
fn max_cart_line_picks_largest_subtotal() {
    let lines = vec![
        variant_line("a", "1.00", "5.00", None),
        variant_line("b", "1.00", "12.00", None),
        variant_line("c", "1.00", "3.00", None),
    ];
    assert_eq!(max_cart_line(&lines), Ok(1));
}

#[test]
fn max_cart_line_last_of_equals_wins() {
    let lines = vec![
        variant_line("a", "1.00", "10.00", None),
        variant_line("b", "1.00", "10.00", None),
    ];
    assert_eq!(max_cart_line(&lines), Ok(1));
}

#[test]
fn max_cart_line_ranks_unparseable_lowest() {
    let lines = vec![
        variant_line("a", "1.00", "abc", None),
        variant_line("b", "1.00", "0.01", None),
    ];
    assert_eq!(max_cart_line(&lines), Ok(1));
    let lines = vec![
        variant_line("a", "1.00", "0.01", None),
        variant_line("b", "1.00", "abc", None),
    ];
    assert_eq!(max_cart_line(&lines), Ok(0));
}

#[test]
fn max_cart_line_fails_on_empty_cart() {
    assert_eq!(max_cart_line(&vec![]), Err(EngineError::EmptyCart));
}
