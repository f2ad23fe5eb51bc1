//! Customers and the products they own.
use vstd::prelude::*;
use crate::person::{Person, PersonView};
use crate::product::{product_views, total_value, Product, ProductView};

verus! {

/// What a [`Customer`] is, as mathematical values.
pub struct CustomerView {
    pub person: PersonView,
    pub document_id: Seq<char>,
    pub birth_date: chrono::NaiveDate,
    /// The products owned, in the order in which they were added.
    pub products: Seq<ProductView>,
}

/// A person with an identifying document, a birth date and the products
/// they own, in the order in which they were added.
#[derive(Debug, PartialEq, Eq)]
pub struct Customer {
    person: Person,
    document_id: String,
    birth_date: chrono::NaiveDate,
    products: Vec<Product>,
}

impl View for Customer {
    type V = CustomerView;

    closed spec fn view(&self) -> CustomerView {
        CustomerView {
            person: self.person@,
            document_id: self.document_id@,
            birth_date: self.birth_date,
            products: product_views(self.products@),
        }
    }
}

impl Customer {
    /// Builds a customer who owns no product yet. Nothing is checked.
    pub fn new(
        name: String,
        address: String,
        document_id: String,
        birth_date: chrono::NaiveDate,
    ) -> (customer: Customer)
        ensures
            customer@ == (CustomerView {
                person: PersonView { name: name@, address: address@ },
                document_id: document_id@,
                birth_date,
                products: Seq::empty(),
            }),
    {
        let person = Person::new(name, address);
        let customer = Customer { person, document_id, birth_date, products: Vec::new() };
        assert(customer@.products =~= Seq::empty());
        customer
    }

    pub fn person(&self) -> (person: &Person)
        ensures
            person@ == self@.person,
    {
        &self.person
    }

    pub fn name(&self) -> (name: &str)
        ensures
            name@ == self@.person.name,
    {
        self.person.name()
    }

    pub fn address(&self) -> (address: &str)
        ensures
            address@ == self@.person.address,
    {
        self.person.address()
    }

    pub fn document_id(&self) -> (document_id: &str)
        ensures
            document_id@ == self@.document_id,
    {
        self.document_id.as_str()
    }

    pub fn birth_date(&self) -> (birth_date: chrono::NaiveDate)
        ensures
            birth_date == self@.birth_date,
    {
        self.birth_date
    }

    /// The products owned, in the order in which they were added.
    pub fn products(&self) -> (products: &Vec<Product>)
        ensures
            product_views(products@) == self@.products,
    {
        &self.products
    }

    /// Replaces the document id; everything else stays.
    pub fn update_document_id(&mut self, new_id: String)
        ensures
            final(self)@ == (CustomerView { document_id: new_id@, ..old(self)@ }),
    {
        self.document_id = new_id;
    }

    /// Replaces the birth date; everything else stays.
    pub fn update_birth_date(&mut self, new_date: chrono::NaiveDate)
        ensures
            final(self)@ == (CustomerView { birth_date: new_date, ..old(self)@ }),
    {
        self.birth_date = new_date;
    }

    /// Replaces the name; everything else stays.
    pub fn update_name(&mut self, new_name: String)
        ensures
            final(self)@ == (CustomerView {
                person: PersonView { name: new_name@, ..old(self)@.person },
                ..old(self)@
            }),
    {
        self.person.set_name(new_name);
    }

    /// Replaces the address; everything else stays.
    pub fn update_address(&mut self, new_address: String)
        ensures
            final(self)@ == (CustomerView {
                person: PersonView { address: new_address@, ..old(self)@.person },
                ..old(self)@
            }),
    {
        self.person.set_address(new_address);
    }

    /// Appends `product` to the products owned. The same code may occur twice.
    pub fn add_product(&mut self, product: Product)
        ensures
            final(self)@ == (CustomerView {
                products: old(self)@.products.push(product@),
                ..old(self)@
            }),
    {
        self.products.push(product);
        assert(product_views(self.products@) =~= product_views(old(self).products@).push(
            product@,
        ));
    }

    /// The sum of the unit values of the products owned, in hundredths of the
    /// currency unit; 0 where there is none. It cannot leave the range of the
    /// result: a value is an `i32` and a customer holds fewer than 2^64 products.
    pub fn total_product_value(&self) -> (total: i128)
        ensures
            total == total_value(self@.products),
            self@.products.len() <= usize::MAX,
            -0x8000_0000 * self@.products.len() <= total <= 0x7fff_ffff * self@.products.len(),
    {
        let mut total: i128 = 0;
        let mut i: usize = 0;
        while i < self.products.len()
            invariant
                i <= self.products.len(),
                total == total_value(self@.products.take(i as int)),
                -0x8000_0000 * i <= total <= 0x7fff_ffff * i,
            decreases self.products.len() - i,
        {
            let value = self.products[i].value();
            assert(self@.products.take(i + 1).drop_last() =~= self@.products.take(i as int));
            total = total + value as i128;
            i = i + 1;
        }
        assert(self@.products.take(i as int) =~= self@.products);
        total
    }
}

} // verus!
