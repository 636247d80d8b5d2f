use product_service::configuration::Settings;
use product_service::data::fetch_products;
use product_service::model::Product;

fn settings(data_source: &str) -> Settings {
    Settings { data_source: data_source.to_owned() }
}

#[test]
fn returns_fourteen_products() {
    let products = fetch_products(&settings("static"));
    assert_eq!(products.len(), 14);
}

#[test]
fn never_empty_for_degenerate_settings() {
    let products = fetch_products(&settings(""));
    assert!(!products.is_empty());
}

#[test]
fn same_result_for_any_settings() {
    let a = fetch_products(&settings(""));
    let b = fetch_products(&settings("warehouse-east"));
    let c = fetch_products(&settings("warehouse-east"));
    assert_eq!(a, b);
    assert_eq!(b, c);
}

#[test]
fn first_and_last_records() {
    let products = fetch_products(&settings("static"));
    let first = &products[0];
    assert_eq!(first.id, 1);
    assert_eq!(first.name, "Santa Catnip's Friend");
    assert_eq!(first.price_cents, 999);
    assert_eq!(first.image, "/catnip.jpg");
    let last = &products[13];
    assert_eq!(last.id, 14);
    assert_eq!(last.name, "Blockchain dilemma pillow");
    assert_eq!(last.price_cents, 572);
    assert_eq!(last.image, "/pillow.jpg");
}

#[test]
fn ids_are_unique() {
    let products = fetch_products(&settings("static"));
    for i in 0..products.len() {
        for j in 0..products.len() {
            if i != j {
                assert_ne!(products[i].id, products[j].id);
            }
        }
    }
}

#[test]
fn ids_ascend() {
    let products = fetch_products(&settings("static"));
    for i in 1..products.len() {
        assert!(products[i - 1].id < products[i].id);
    }
}

#[test]
fn ids_are_contiguous_from_one() {
    let products = fetch_products(&settings("static"));
    for (i, p) in products.iter().enumerate() {
        assert_eq!(p.id, i as u64 + 1);
    }
}

#[test]
fn all_fields_populated() {
    let products = fetch_products(&settings("static"));
    for p in &products {
        assert!(!p.name.is_empty());
        assert!(!p.description.is_empty());
        assert!(!p.image.is_empty());
    }
}

#[test]
fn lookup_of_id_seven() {
    let products = fetch_products(&settings("static"));
    let hits: Vec<&Product> = products.iter().filter(|p| p.id == 7).collect();
    assert_eq!(hits.len(), 1);
    assert_eq!(hits[0].name, "Seashell Snuggle Bed");
    assert_eq!(hits[0].price_cents, 1999);
}

#[test]
fn prices_in_cents() {
    let products = fetch_products(&settings("static"));
    let cents: Vec<u64> = products.iter().map(|p| p.price_cents).collect();
    assert_eq!(
        cents,
        vec![999, 699, 1299, 1199, 899, 1499, 1999, 799, 399, 599, 1199, 1199, 1199, 572]
    );
}
