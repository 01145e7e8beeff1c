use natural_derive::{
    derive_add, derive_add_assign, derive_div, derive_div_assign, derive_div_assign_scalar,
    derive_div_scalar, derive_from, derive_inner, derive_mul, derive_mul_assign,
    derive_mul_assign_scalar, derive_mul_scalar, derive_new, derive_rem, derive_rem_assign,
    derive_rem_assign_scalar, derive_rem_scalar, derive_sub, derive_sub_assign, Declaration,
    Newtype, Shape,
};

type SomeUnit = Newtype<u32>;

fn some_unit() -> Declaration {
    Declaration {
        name: String::from("SomeUnit"),
        shape: Shape::Positional(vec![String::from("u32")]),
    }
}

fn is_impl_block(text: &str) -> bool {
    syn::parse_str::<syn::ItemImpl>(text).is_ok()
}

#[test]
fn test_new() {
    let text = derive_new(&some_unit()).unwrap();
    assert_eq!(
        text,
        "impl SomeUnit { pub fn new(value: u32) -> Self { Self(value) } }"
    );
    assert!(is_impl_block(&text));
    assert_eq!(SomeUnit::new(42), Newtype(42));
}

#[test]
fn test_inner() {
    let text = derive_inner(&some_unit()).unwrap();
    assert_eq!(
        text,
        "impl SomeUnit { pub fn inner(&self) -> &u32 { &self.0 } }"
    );
    assert!(is_impl_block(&text));
    assert_eq!(*SomeUnit::new(42).inner(), 42);
}

#[test]
fn test_from() {
    let text = derive_from(&some_unit()).unwrap();
    assert_eq!(
        text,
        "impl std::convert::From<u32> for SomeUnit { fn from(value: u32) -> Self { Self(value) } }"
    );
    assert!(is_impl_block(&text));
    let kelvin: SomeUnit = 42.into();
    assert_eq!(kelvin, Newtype(42));
}

#[test]
fn test_add() {
    let text = derive_add(&some_unit()).unwrap();
    assert_eq!(
        text,
        "impl std::ops::Add for SomeUnit { type Output = Self; fn add(self, rhs: Self) -> Self::Output { Self(self.0 + rhs.0) } }"
    );
    assert!(is_impl_block(&text));
    let kelvin: SomeUnit = Newtype(42) + Newtype(1);
    assert_eq!(kelvin, Newtype(43));
}

#[test]
fn test_add_assign() {
    let text = derive_add_assign(&some_unit()).unwrap();
    assert_eq!(
        text,
        "impl std::ops::AddAssign for SomeUnit { fn add_assign(&mut self, rhs: Self) { self.0 += rhs.0; } }"
    );
    assert!(is_impl_block(&text));
    let mut kelvin: SomeUnit = Newtype(42);
    kelvin.add_assign(Newtype(1));
    assert_eq!(kelvin, Newtype(43));
}

#[test]
fn test_sub() {
    let text = derive_sub(&some_unit()).unwrap();
    assert_eq!(
        text,
        "impl std::ops::Sub for SomeUnit { type Output = Self; fn sub(self, rhs: Self) -> Self::Output { Self(self.0 - rhs.0) } }"
    );
    assert!(is_impl_block(&text));
    let kelvin: SomeUnit = Newtype(42) - Newtype(42);
    assert_eq!(kelvin, Newtype(0));
}

#[test]
fn test_sub_assign() {
    let text = derive_sub_assign(&some_unit()).unwrap();
    assert_eq!(
        text,
        "impl std::ops::SubAssign for SomeUnit { fn sub_assign(&mut self, rhs: Self) { self.0 -= rhs.0; } }"
    );
    assert!(is_impl_block(&text));
    let mut kelvin: SomeUnit = Newtype(42);
    kelvin.sub_assign(Newtype(42));
    assert_eq!(kelvin, Newtype(0));
}

#[test]
fn test_mul() {
    let text = derive_mul(&some_unit()).unwrap();
    assert_eq!(
        text,
        "impl std::ops::Mul for SomeUnit { type Output = Self; fn mul(self, rhs: Self) -> Self::Output { Self(self.0 * rhs.0) } }"
    );
    assert!(is_impl_block(&text));
    let kelvin: SomeUnit = Newtype(42) * Newtype(2);
    assert_eq!(kelvin, Newtype(84));
}

#[test]
fn test_mul_assign() {
    let text = derive_mul_assign(&some_unit()).unwrap();
    assert_eq!(
        text,
        "impl std::ops::MulAssign for SomeUnit { fn mul_assign(&mut self, rhs: Self) { self.0 *= rhs.0; } }"
    );
    assert!(is_impl_block(&text));
    let mut kelvin: SomeUnit = Newtype(42);
    kelvin.mul_assign(Newtype(2));
    assert_eq!(kelvin, Newtype(84));
}

#[test]
fn test_mul_scalar() {
    let text = derive_mul_scalar(&some_unit()).unwrap();
    assert_eq!(
        text,
        "impl std::ops::Mul<u32> for SomeUnit { type Output = Self; fn mul(self, rhs: u32) -> Self::Output { Self(self.0 * rhs) } }"
    );
    assert!(is_impl_block(&text));
    let kelvin: SomeUnit = Newtype(42) * 2;
    assert_eq!(kelvin, Newtype(84));
}

#[test]
fn test_mul_assign_scalar() {
    let text = derive_mul_assign_scalar(&some_unit()).unwrap();
    assert_eq!(
        text,
        "impl std::ops::MulAssign<u32> for SomeUnit { fn mul_assign(&mut self, rhs: u32) { self.0 *= rhs; } }"
    );
    assert!(is_impl_block(&text));
    let mut kelvin: SomeUnit = Newtype(42);
    kelvin.mul_assign_scalar(2);
    assert_eq!(kelvin, Newtype(84));
}

#[test]
fn test_div() {
    let text = derive_div(&some_unit()).unwrap();
    assert_eq!(
        text,
        "impl std::ops::Div for SomeUnit { type Output = Self; fn div(self, rhs: Self) -> Self::Output { Self(self.0 / rhs.0) } }"
    );
    assert!(is_impl_block(&text));
    let kelvin: SomeUnit = Newtype(42) / Newtype(2);
    assert_eq!(kelvin, Newtype(21));
}

#[test]
fn test_div_assign() {
    let text = derive_div_assign(&some_unit()).unwrap();
    assert_eq!(
        text,
        "impl std::ops::DivAssign for SomeUnit { fn div_assign(&mut self, rhs: Self) { self.0 /= rhs.0; } }"
    );
    assert!(is_impl_block(&text));
    let mut kelvin: SomeUnit = Newtype(42);
    kelvin.div_assign(Newtype(2));
    assert_eq!(kelvin, Newtype(21));
}

#[test]
fn test_div_scalar() {
    let text = derive_div_scalar(&some_unit()).unwrap();
    assert_eq!(
        text,
        "impl std::ops::Div<u32> for SomeUnit { type Output = Self; fn div(self, rhs: u32) -> Self::Output { Self(self.0 / rhs) } }"
    );
    assert!(is_impl_block(&text));
    let kelvin: SomeUnit = Newtype(42) / 2;
    assert_eq!(kelvin, Newtype(21));
}

#[test]
fn test_div_assign_scalar() {
    let text = derive_div_assign_scalar(&some_unit()).unwrap();
    assert_eq!(
        text,
        "impl std::ops::DivAssign<u32> for SomeUnit { fn div_assign(&mut self, rhs: u32) { self.0 /= rhs; } }"
    );
    assert!(is_impl_block(&text));
    let mut kelvin: SomeUnit = Newtype(42);
    kelvin.div_assign_scalar(2);
    assert_eq!(kelvin, Newtype(21));
}

#[test]
fn test_rem() {
    let text = derive_rem(&some_unit()).unwrap();
    assert_eq!(
        text,
        "impl std::ops::Rem for SomeUnit { type Output = Self; fn rem(self, rhs: Self) -> Self::Output { Self(self.0 % rhs.0) } }"
    );
    assert!(is_impl_block(&text));
    let kelvin: SomeUnit = Newtype(42) % Newtype(2);
    assert_eq!(kelvin, Newtype(0));
}

#[test]
fn test_rem_assign() {
    let text = derive_rem_assign(&some_unit()).unwrap();
    assert_eq!(
        text,
        "impl std::ops::RemAssign for SomeUnit { fn rem_assign(&mut self, rhs: Self) { self.0 %= rhs.0; } }"
    );
    assert!(is_impl_block(&text));
    let mut kelvin: SomeUnit = Newtype(42);
    kelvin.rem_assign(Newtype(2));
    assert_eq!(kelvin, Newtype(0));
}

#[test]
fn test_rem_scalar() {
    let text = derive_rem_scalar(&some_unit()).unwrap();
    assert_eq!(
        text,
        "impl std::ops::Rem<u32> for SomeUnit { type Output = Self; fn rem(self, rhs: u32) -> Self::Output { Self(self.0 % rhs) } }"
    );
    assert!(is_impl_block(&text));
    let kelvin: SomeUnit = Newtype(42) % 2;
    assert_eq!(kelvin, Newtype(0));
}

#[test]
fn test_rem_assign_scalar() {
    let text = derive_rem_assign_scalar(&some_unit()).unwrap();
    assert_eq!(
        text,
        "impl std::ops::RemAssign<u32> for SomeUnit { fn rem_assign(&mut self, rhs: u32) { self.0 %= rhs; } }"
    );
    assert!(is_impl_block(&text));
    let mut kelvin: SomeUnit = Newtype(42);
    kelvin.rem_assign_scalar(2);
    assert_eq!(kelvin, Newtype(0));
}
