//! A generic config with a `Default` builder, written out as the derive
//! writes it.

use lib_conf::merge::{Staged, apply_or_reset};

#[derive(Debug, Clone)]
pub struct TestConfig<T: Default + Clone + std::fmt::Debug> {
    pub dog: bool,
    pub cat: Option<T>,
}

impl<T: Default + Clone + std::fmt::Debug> TestConfig<T> {
    pub(crate) fn new() -> Self {
        Self { dog: true, cat: None }
    }
    pub fn builder() -> TestConfigBuilder<T> {
        <TestConfigBuilder<T>>::new()
    }
    pub fn dog(&self) -> &bool {
        &self.dog
    }
    pub fn cat(&self) -> Option<&T> {
        self.cat.as_ref()
    }
    pub fn merge_with_override(&mut self, override_conf: TestOverrideConfig<T>) {
        let val = override_conf.dog.clone();
        apply_or_reset(&mut self.dog, override_conf.dog_unset, val.map(|val| val), || true);
    }
}

impl<T: Default + Clone + std::fmt::Debug> Default for TestConfig<T> {
    fn default() -> Self {
        Self::new()
    }
}

impl<T: Default + Clone + std::fmt::Debug> std::ops::Add<TestOverrideConfig<T>> for TestConfig<T> {
    type Output = Self;
    fn add(self, other: TestOverrideConfig<T>) -> Self {
        let mut merged = self;
        merged.merge_with_override(other);
        merged
    }
}

#[derive(Debug, Clone)]
pub struct TestConfigBuilder<T: Default + Clone + std::fmt::Debug> {
    pub(crate) staged: Staged<TestConfig<T>, TestOverrideConfig<T>>,
}

impl<T: Default + Clone + std::fmt::Debug> TestConfigBuilder<T> {
    pub fn new() -> Self {
        let initial_override = None;
        Self {
            staged: Staged::new(<TestConfig<T>>::new(), initial_override),
        }
    }
    pub fn dog(mut self, val: bool) -> Self {
        self.staged.inner.dog = val;
        self
    }
    pub fn cat(mut self, val: Option<T>) -> Self {
        self.staged.inner.cat = val;
        self
    }
    pub fn with_override(self, override_conf: TestOverrideConfig<T>) -> Self {
        Self {
            staged: self.staged.with_override(override_conf),
        }
    }
    pub fn clear_override(self) -> Self {
        Self {
            staged: self.staged.clear_override(),
        }
    }
    pub fn build(self) -> TestConfig<T> {
        self.staged.build(|inner, override_conf| inner + override_conf)
    }
}

impl<T: Default + Clone + std::fmt::Debug> Default for TestConfigBuilder<T> {
    fn default() -> Self {
        Self::new()
    }
}

#[derive(Debug, Clone)]
pub struct TestOverrideConfig<T: Default + Clone + std::fmt::Debug> {
    pub dog: Option<bool>,
    pub dog_unset: bool,
    _cat: ::std::marker::PhantomData<Option<T>>,
}

fn load_override_string() -> TestOverrideConfig<String> {
    TestOverrideConfig {
        dog: Some(true),
        dog_unset: false,
        _cat: ::std::marker::PhantomData,
    }
}

#[test]
fn generics_main() {
    let override_config = load_override_string();
    println!("override config: {override_config:#?}");

    let mut builder = TestConfig::builder();
    println!("builder default config: {builder:#?}");
    builder = builder.with_override(override_config);
    println!("builder w/ override config: {builder:#?}");
    builder = builder.dog(false);
    println!("builder w/ runtime config: {builder:#?}");

    let config = builder.build();
    println!("output config: {config:#?}");
}

#[test]
fn default_builder_matches_library_defaults() {
    let config: TestConfig<String> = TestConfigBuilder::default().build();
    assert_eq!(config.dog(), &true);
    assert_eq!(config.cat(), None);
    let reset = TestOverrideConfig::<String> {
        dog: Some(false),
        dog_unset: true,
        _cat: ::std::marker::PhantomData,
    };
    let config = TestConfig::<String>::builder().dog(false).with_override(reset).build();
    assert_eq!(config.dog(), &true);
}
