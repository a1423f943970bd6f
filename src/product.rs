use vstd::prelude::*;
use crate::ids::fresh_id;

verus! {

/// A catalog entry. Its price is an amount in ten-thousandths of the currency
/// unit; its stock count is informational and never decremented here.
#[derive(Clone, Debug, PartialEq)]
pub struct Product {
    pub id: String,
    pub name: String,
    pub price: u64,
    pub category: ProductCategory,
    pub image_url: Option<String>,
    pub stock: u32,
}

/// The closed set of product categories.
#[derive(Clone, Copy, Debug, PartialEq, Eq, Structural)]
pub enum ProductCategory {
    Food,
    Beverage,
    Retail,
    Service,
}

/// Stock count given to a newly created product.
pub const INITIAL_STOCK: u32 = 100;

impl Product {
    /// A new product with a fresh 36-character identity, no image and the
    /// initial stock count.
    pub fn new(name: String, price: u64, category: ProductCategory) -> (r: Self)
        ensures
            r.id@.len() == 36,
            r.name@ == name@,
            r.price == price,
            r.category == category,
            r.image_url.is_none(),
            r.stock == INITIAL_STOCK,
    {
        Product { id: fresh_id(), name, price, category, image_url: None, stock: INITIAL_STOCK }
    }
}

/// `p` is shown under the filter `category`; `None` shows every product.
pub open spec fn in_category(p: Product, category: Option<ProductCategory>) -> bool {
    match category {
        None => true,
        Some(c) => p.category == c,
    }
}

/// Positions, in increasing order, of the products shown under `category`.
pub open spec fn category_positions(products: Seq<Product>, category: Option<ProductCategory>) -> Seq<
    usize,
>
    decreases products.len(),
{
    if products.len() == 0 {
        Seq::empty()
    } else {
        let rest = category_positions(products.drop_last(), category);
        if in_category(products.last(), category) {
            rest.push((products.len() - 1) as usize)
        } else {
            rest
        }
    }
}

/// Positions, in catalog order, of the products shown under `category`.
pub fn positions_in_category(products: &Vec<Product>, category: Option<ProductCategory>) -> (r: Vec<
    usize,
>)
    ensures
        r@ == category_positions(products@, category),
{
    let mut r: Vec<usize> = Vec::new();
    let mut i: usize = 0;
    while i < products.len()
        invariant
            i <= products@.len(),
            r@ == category_positions(products@.subrange(0, i as int), category),
        decreases products@.len() - i,
    {
        proof {
            assert(products@.subrange(0, i as int + 1).drop_last() =~= products@.subrange(0, i as int));
        }
        let shown = match category {
            None => true,
            Some(c) => products[i].category == c,
        };
        if shown {
            r.push(i);
        }
        i = i + 1;
    }
    proof {
        assert(products@.subrange(0, i as int) =~= products@);
    }
    r
}

/// Name, price and category of the `i`-th product of the starter catalog.
pub open spec fn starter_entry(i: int) -> (Seq<char>, u64, ProductCategory) {
    if i == 0 {
        ("Espresso"@, 35000, ProductCategory::Beverage)
    } else if i == 1 {
        ("Cappuccino"@, 45000, ProductCategory::Beverage)
    } else if i == 2 {
        ("Latte"@, 50000, ProductCategory::Beverage)
    } else if i == 3 {
        ("Croissant"@, 37500, ProductCategory::Food)
    } else if i == 4 {
        ("Bagel"@, 25000, ProductCategory::Food)
    } else if i == 5 {
        ("Sandwich"@, 85000, ProductCategory::Food)
    } else if i == 6 {
        ("Salad"@, 97500, ProductCategory::Food)
    } else if i == 7 {
        ("Muffin"@, 32500, ProductCategory::Food)
    } else if i == 8 {
        ("T-Shirt"@, 249900, ProductCategory::Retail)
    } else if i == 9 {
        ("Mug"@, 129900, ProductCategory::Retail)
    } else {
        ("Consultation"@, 500000, ProductCategory::Service)
    }
}

/// Number of products in the starter catalog.
pub const STARTER_SIZE: usize = 11;

/// The catalog a terminal opens with.
pub fn starter_catalog() -> (r: Vec<Product>)
    ensures
        r@.len() == STARTER_SIZE,
        forall|i: int|
            0 <= i < STARTER_SIZE ==> {
                &&& (#[trigger] r@[i]).name@ == starter_entry(i).0
                &&& r@[i].price == starter_entry(i).1
                &&& r@[i].category == starter_entry(i).2
                &&& r@[i].id@.len() == 36
                &&& r@[i].stock == INITIAL_STOCK
            },
{
    let mut r: Vec<Product> = Vec::new();
    r.push(Product::new("Espresso".to_owned(), 35000, ProductCategory::Beverage));
    r.push(Product::new("Cappuccino".to_owned(), 45000, ProductCategory::Beverage));
    r.push(Product::new("Latte".to_owned(), 50000, ProductCategory::Beverage));
    r.push(Product::new("Croissant".to_owned(), 37500, ProductCategory::Food));
    r.push(Product::new("Bagel".to_owned(), 25000, ProductCategory::Food));
    r.push(Product::new("Sandwich".to_owned(), 85000, ProductCategory::Food));
    r.push(Product::new("Salad".to_owned(), 97500, ProductCategory::Food));
    r.push(Product::new("Muffin".to_owned(), 32500, ProductCategory::Food));
    r.push(Product::new("T-Shirt".to_owned(), 249900, ProductCategory::Retail));
    r.push(Product::new("Mug".to_owned(), 129900, ProductCategory::Retail));
    r.push(Product::new("Consultation".to_owned(), 500000, ProductCategory::Service));
    r
}

impl ProductCategory {
    /// Display label of the category.
    pub open spec fn label(self) -> Seq<char> {
        match self {
            ProductCategory::Food => "Food"@,
            ProductCategory::Beverage => "Beverage"@,
            ProductCategory::Retail => "Retail"@,
            ProductCategory::Service => "Service"@,
        }
    }

    /// Display colour of the category, as a CSS hex colour.
    pub open spec fn color_code(self) -> Seq<char> {
        match self {
            ProductCategory::Food => "#FF6B6B"@,
            ProductCategory::Beverage => "#4ECDC4"@,
            ProductCategory::Retail => "#95E1D3"@,
            ProductCategory::Service => "#FFA07A"@,
        }
    }

    pub fn as_str(&self) -> (r: &str)
        ensures
            r@ == self.label(),
    {
        match self {
            ProductCategory::Food => "Food",
            ProductCategory::Beverage => "Beverage",
            ProductCategory::Retail => "Retail",
            ProductCategory::Service => "Service",
        }
    }

    pub fn color(&self) -> (r: &str)
        ensures
            r@ == self.color_code(),
    {
        match self {
            ProductCategory::Food => "#FF6B6B",
            ProductCategory::Beverage => "#4ECDC4",
            ProductCategory::Retail => "#95E1D3",
            ProductCategory::Service => "#FFA07A",
        }
    }
}

} // verus!
