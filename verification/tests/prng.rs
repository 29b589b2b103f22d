use triple_buffer::split_mix::SplitMix;
use triple_buffer::split_mix::split_mix;
use triple_buffer::xorshiro::Xorshiro;
use triple_buffer::xorshiro::xorshiro;

#[test]
fn split_mix_dump_value_types() {
    let mut rng = SplitMix::new(123456_u64);

    let a: u8 = rng.next();
    assert_eq!(a, 230);

    let b: u128 = rng.next();
    assert_eq!(b, 200611180297160101390585888926671092745);

    let c: bool = rng.next();
    assert_eq!(c, false);

    let raw: u64 = rng.next();
    let mask: u64 = (1 << 23) - 1;
    let d = (((raw >> 42) & mask) as f32) / (mask as f32);
    assert_eq!(d, 0.20730236);
}

#[test]
fn xorshiro_dump_value_types() {
    let mut rng = xorshiro(123456_u64);

    let a: u8 = rng.next();
    assert_eq!(a, 10);

    let b: u128 = rng.next();
    assert_eq!(b, 183097476445210036426531508735958283909);

    let c: bool = rng.next();
    assert_eq!(c, true);

    let raw: u64 = rng.next();
    let mask: u64 = (1 << 23) - 1;
    let d = (((raw >> 42) & mask) as f32) / (mask as f32);
    assert_eq!(d, 0.074927814);
}

#[test]
fn split_mix_32_widths() {
    let mut rng = SplitMix::new(42_u32);

    let a: u8 = rng.next();
    assert_eq!(a, 59);

    let b: u16 = rng.next();
    assert_eq!(b, 23376);

    let c: u64 = rng.next();
    assert_eq!(c, 12456842916103124772);

    let d: bool = rng.next();
    assert_eq!(d, true);
}

#[test]
fn split_mix_128_widths() {
    let mut rng = SplitMix::new(7_u128);

    let a: u8 = rng.next();
    assert_eq!(a, 162);

    let b: u32 = rng.next();
    assert_eq!(b, 1461621656);

    let c: u128 = rng.next();
    assert_eq!(c, 78016122724010221495134477587218383070);

    let d: bool = rng.next();
    assert_eq!(d, false);
}

#[test]
fn split_mix_64_signed_widths() {
    let mut rng = split_mix(123456_u64);

    let a: i8 = rng.next();
    assert_eq!(a, -26);

    let b: i16 = rng.next();
    assert_eq!(b, -20313);

    let c: i32 = rng.next();
    assert_eq!(c, 1322554934);

    let d: i64 = rng.next();
    assert_eq!(d, -5106748601083601350);

    let e: i128 = rng.next();
    assert_eq!(e, -74282146130028232241901140333340765801);
}

#[test]
fn split_mix_64_unsigned_widths() {
    let mut rng = split_mix(999_u64);

    let a: u16 = rng.next();
    assert_eq!(a, 37531);

    let b: u32 = rng.next();
    assert_eq!(b, 2381858251);
}

#[test]
fn xorshiro_32_widths() {
    let mut rng = xorshiro(42_u32);
    assert_eq!(rng.seed, 993527732);

    let a: u8 = rng.next();
    assert_eq!(a, 108);

    let b: u32 = rng.next();
    assert_eq!(b, 1407693600);

    let c: u64 = rng.next();
    assert_eq!(c, 9935498317573860031);
}

#[test]
fn xorshiro_128_widths() {
    let mut rng = xorshiro(7_u128);

    let a: u8 = rng.next();
    assert_eq!(a, 213);

    let b: u128 = rng.next();
    assert_eq!(b, 123881717508385740467053478593919459911);
}

#[test]
fn split_mix_default_starts_at_zero() {
    let mut rng = SplitMix::<u64>::default();
    assert_eq!(rng.state, 0);

    let v: u64 = rng.next();
    assert_eq!(v, 16294208416658607535);
}

#[test]
fn xorshiro_default_seeds_through_split_mix() {
    let mut rng = Xorshiro::<u64>::default();
    assert_eq!(rng.seed, 16294208416658607535);

    let v: u64 = rng.next();
    assert_eq!(v, 16053376993090331485);
}

#[test]
fn split_mix_builder_keeps_seed() {
    let rng = split_mix(123456_u64);
    assert_eq!(rng.state, 123456);
}

#[test]
fn xorshiro_builder_scrambles_seed() {
    let rng = xorshiro(7_u128);
    assert_eq!(rng.seed, 45008026922358461271435869070775149454);
}
