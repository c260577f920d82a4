//! A generic config, written out as the derive writes it, driven through its
//! builder and override.

use lib_conf::merge::{Staged, apply, apply_or_reset};

#[derive(Debug, Clone)]
pub struct TestConfig<T: Default + Clone + std::fmt::Debug, S>
where
    S: Copy,
{
    pub req_t: T,
    pub def_t: T,
    pub opt_t: Option<T>,
    pub opt_s: Option<S>,
    pub all_skipped: bool,
}

impl<T: Default + Clone + std::fmt::Debug, S> TestConfig<T, S>
where
    S: Copy,
{
    pub(crate) fn new(req_t: T) -> Self {
        Self {
            req_t: req_t,
            def_t: T::default(),
            opt_t: None,
            opt_s: None,
            all_skipped: true,
        }
    }
    pub fn builder(req_t: T) -> TestConfigBuilder<T, S> {
        <TestConfigBuilder<T, S>>::new(req_t)
    }
    pub fn req_t(&self) -> &T {
        &self.req_t
    }
    pub fn def_t(&self) -> &T {
        &self.def_t
    }
    pub fn opt_t(&self) -> Option<&T> {
        self.opt_t.as_ref()
    }
    pub fn opt_s(&self) -> Option<S> {
        self.opt_s
    }
    pub fn merge_with_override(&mut self, override_conf: TestOverrideConfig<T, S>) {
        let val = override_conf.req_t.clone();
        apply(&mut self.req_t, val.map(|val| val));
        let val = override_conf.def_t.clone();
        apply_or_reset(&mut self.def_t, override_conf.def_t_unset, val.map(|val| val), || T::default());
        let val = override_conf.opt_t.clone();
        apply_or_reset(&mut self.opt_t, override_conf.opt_t_unset, val.map(|val| Some(val)), || None);
    }
}

impl<T: Default + Clone + std::fmt::Debug, S> std::ops::Add<TestOverrideConfig<T, S>> for TestConfig<T, S>
where
    S: Copy,
{
    type Output = Self;
    fn add(self, other: TestOverrideConfig<T, S>) -> Self {
        let mut merged = self;
        merged.merge_with_override(other);
        merged
    }
}

#[derive(Debug, Clone)]
pub struct TestConfigBuilder<T: Default + Clone + std::fmt::Debug, S>
where
    S: Copy,
{
    pub(crate) staged: Staged<TestConfig<T, S>, TestOverrideConfig<T, S>>,
}

impl<T: Default + Clone + std::fmt::Debug, S> TestConfigBuilder<T, S>
where
    S: Copy,
{
    pub fn new(req_t: T) -> Self {
        let initial_override = None;
        Self {
            staged: Staged::new(<TestConfig<T, S>>::new(req_t), initial_override),
        }
    }
    pub fn req_t(mut self, val: T) -> Self {
        self.staged.inner.req_t = val;
        self
    }
    pub fn def_t(mut self, val: T) -> Self {
        self.staged.inner.def_t = val;
        self
    }
    pub fn opt_t(mut self, val: Option<T>) -> Self {
        self.staged.inner.opt_t = val;
        self
    }
    pub fn opt_s(mut self, val: Option<S>) -> Self {
        self.staged.inner.opt_s = val;
        self
    }
    pub fn with_override(self, override_conf: TestOverrideConfig<T, S>) -> Self {
        Self {
            staged: self.staged.with_override(override_conf),
        }
    }
    pub fn clear_override(self) -> Self {
        Self {
            staged: self.staged.clear_override(),
        }
    }
    pub fn build(self) -> TestConfig<T, S> {
        self.staged.build(|inner, override_conf| inner + override_conf)
    }
}

#[derive(Debug, Clone)]
pub struct TestOverrideConfig<T: Default + Clone + std::fmt::Debug, S>
where
    S: Copy,
{
    pub req_t: Option<T>,
    pub def_t: Option<T>,
    pub def_t_unset: bool,
    pub opt_t: Option<T>,
    pub opt_t_unset: bool,
    _opt_s: ::std::marker::PhantomData<Option<S>>,
    _all_skipped: ::std::marker::PhantomData<bool>,
}

static REQ_DEF_VAL: &str = "required_default";
static COMPILE_VAL: &str = "compile_val";
static RUNTIME_VAL: &str = "runtime_val";

fn builder_default() -> TestConfigBuilder<String, bool> {
    TestConfig::builder(String::from(REQ_DEF_VAL))
}

fn runtime_override(reset_def: bool) -> TestOverrideConfig<String, bool> {
    TestOverrideConfig {
        req_t: Some(String::from(RUNTIME_VAL)),
        def_t: Some(String::from(RUNTIME_VAL)),
        def_t_unset: reset_def,
        opt_t: Some(String::from(RUNTIME_VAL)),
        opt_t_unset: false,
        _opt_s: ::std::marker::PhantomData,
        _all_skipped: ::std::marker::PhantomData,
    }
}

#[test]
fn default_works() {
    let config = builder_default().build();
    assert_eq!(config.req_t(), &String::from(REQ_DEF_VAL));
    assert_eq!(config.def_t(), &String::default());
    assert_eq!(config.opt_t(), None);
    assert_eq!(config.opt_s(), None);
}

#[test]
fn compile_time_works() {
    let config = builder_default()
        .req_t(String::from(COMPILE_VAL))
        .def_t(String::from(COMPILE_VAL))
        .opt_t(Some(String::from(COMPILE_VAL)))
        .opt_s(Some(true))
        .build();
    assert_eq!(config.req_t(), &String::from(COMPILE_VAL));
    assert_eq!(config.def_t(), &String::from(COMPILE_VAL));
    assert_eq!(config.opt_t(), Some(&String::from(COMPILE_VAL)));
    assert_eq!(config.opt_s(), Some(true));
}

#[test]
fn runtime_values_replace_compiled_ones() {
    let config = builder_default()
        .req_t(String::from(COMPILE_VAL))
        .def_t(String::from(COMPILE_VAL))
        .opt_t(Some(String::from(COMPILE_VAL)))
        .opt_s(Some(true))
        .with_override(runtime_override(true))
        .build();
    assert_eq!(config.req_t(), &String::from(RUNTIME_VAL));
    // the reset flag wins over the value given beside it
    assert_eq!(config.def_t(), &String::default());
    assert_eq!(config.opt_t(), Some(&String::from(RUNTIME_VAL)));
    // not part of the override
    assert_eq!(config.opt_s(), Some(true));
    assert!(config.all_skipped);
}

#[test]
fn override_order_does_not_matter() {
    let first = builder_default()
        .with_override(runtime_override(false))
        .def_t(String::from(COMPILE_VAL))
        .build();
    let second = builder_default()
        .def_t(String::from(COMPILE_VAL))
        .with_override(runtime_override(false))
        .build();
    assert_eq!(first.def_t(), &String::from(RUNTIME_VAL));
    assert_eq!(second.def_t(), &String::from(RUNTIME_VAL));
}

#[test]
fn last_override_wins_and_clear_drops_it() {
    let mut other = runtime_override(false);
    other.req_t = Some(String::from("other"));
    let config = builder_default()
        .with_override(runtime_override(false))
        .with_override(other)
        .build();
    assert_eq!(config.req_t(), &String::from("other"));

    let cleared = builder_default()
        .with_override(runtime_override(false))
        .clear_override()
        .build();
    assert_eq!(cleared.req_t(), &String::from(REQ_DEF_VAL));
    assert_eq!(cleared.opt_t(), None);
}
