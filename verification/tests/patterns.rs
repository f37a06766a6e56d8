use design_patterns::builder::computer::CustomComputerBuilder;
use design_patterns::builder::http_request::CustomHttpRequestBuilder;
use design_patterns::builder::query::SqlQueryBuilder;
use design_patterns::strategy::{
    BitcoinPayment, CreditCardPayment, PayPalPayment, PaymentMethod, PaymentProcessor, PaymentStrategy,
};

#[test]
fn payment_strategies_write_their_receipts() {
    assert_eq!(
        CreditCardPayment::new("John Doe", "123-456-789-0123").pay(25000),
        "Paying $250.00 using Credit Card - Name: John Doe, Card Number: 123-456-789-0123"
    );
    assert_eq!(
        PayPalPayment::new("john.doe@example.com").pay(15000),
        "Paying $150.00 using PayPal - Email: john.doe@example.com"
    );
    assert_eq!(
        BitcoinPayment::new("1A1zP1eP5QGefi2DMPTfTL5SLmv7DivfNa").pay(10000),
        "Paying $100.00 using Bitcoin - Wallet Address: 1A1zP1eP5QGefi2DMPTfTL5SLmv7DivfNa"
    );
    assert_eq!(PayPalPayment::new("a").pay(5), "Paying $0.05 using PayPal - Email: a");
}

#[test]
fn payment_processor_uses_the_strategy_set_last() {
    let mut processor =
        PaymentProcessor::new(PaymentMethod::CreditCard(CreditCardPayment::new("John Doe", "123-456-789-0123")));
    assert_eq!(
        processor.process_payment(25000),
        "Paying $250.00 using Credit Card - Name: John Doe, Card Number: 123-456-789-0123"
    );
    processor.set_strategy(PaymentMethod::PayPal(PayPalPayment::new("john.doe@example.com")));
    assert_eq!(processor.process_payment(15000), "Paying $150.00 using PayPal - Email: john.doe@example.com");
    processor.set_strategy(PaymentMethod::Bitcoin(BitcoinPayment::new("wallet")));
    assert_eq!(processor.process_payment(10000), "Paying $100.00 using Bitcoin - Wallet Address: wallet");
}

#[test]
fn computer_builder_keeps_parts_between_builds() {
    let mut builder = CustomComputerBuilder::new();
    let empty = builder.build();
    assert_eq!(empty.cpu, "");
    assert_eq!(empty.gpu, None);
    let gaming = builder
        .set_cpu("Intel Core i9")
        .set_ram("32GB")
        .set_storage("1TB SSD")
        .set_gpu("NVIDIA RTX 3080")
        .build();
    assert_eq!(gaming.cpu, "Intel Core i9");
    assert_eq!(gaming.ram, "32GB");
    assert_eq!(gaming.storage, "1TB SSD");
    assert_eq!(gaming.gpu, Some("NVIDIA RTX 3080".to_string()));
    let office = builder.set_cpu("Intel Core i5").set_ram("16GB").set_storage("512GB SSD").build();
    assert_eq!(office.cpu, "Intel Core i5");
    assert_eq!(office.ram, "16GB");
    assert_eq!(office.storage, "512GB SSD");
    assert_eq!(office.gpu, Some("NVIDIA RTX 3080".to_string()));
}

#[test]
fn query_builder_piles_up_columns() {
    let mut builder = SqlQueryBuilder::new();
    let select = builder
        .set_table("users")
        .add_column("id")
        .add_column("name")
        .add_condition("age > 18")
        .set_order_by("name ASC")
        .build();
    assert_eq!(select.table, "users");
    assert_eq!(select.columns, vec!["id", "name"]);
    assert_eq!(select.conditions, vec!["age > 18"]);
    assert_eq!(select.order_by, Some("name ASC".to_string()));
    let insert = builder.set_table("users").add_column("id").add_column("name").add_column("email").build();
    assert_eq!(insert.columns, vec!["id", "name", "id", "name", "email"]);
    assert_eq!(insert.conditions, vec!["age > 18"]);
    assert_eq!(insert.order_by, Some("name ASC".to_string()));
}

#[test]
fn http_request_builder_piles_up_headers() {
    let mut builder = CustomHttpRequestBuilder::new();
    let get = builder
        .set_method("GET")
        .set_url("https://api.example.com/resource")
        .add_query_param("key", "value")
        .add_header("Accept", "application/json")
        .build();
    assert_eq!(get.method, "GET");
    assert_eq!(get.url, "https://api.example.com/resource");
    assert_eq!(get.query_params, vec![("key".to_string(), "value".to_string())]);
    assert_eq!(get.headers, vec![("Accept".to_string(), "application/json".to_string())]);
    assert_eq!(get.body, None);
    let post = builder
        .set_method("POST")
        .set_url("https://api.example.com/resource")
        .add_header("Content-Type", "application/json")
        .set_body("{\"key\": \"value\"}")
        .build();
    assert_eq!(post.method, "POST");
    assert_eq!(post.headers.len(), 2);
    assert_eq!(post.headers[1], ("Content-Type".to_string(), "application/json".to_string()));
    assert_eq!(post.query_params.len(), 1);
    assert_eq!(post.body, Some("{\"key\": \"value\"}".to_string()));
}
