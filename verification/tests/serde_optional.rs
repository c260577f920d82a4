//! A config with a run-time-only field, written out as the derive writes it.

use lib_conf::merge::{Staged, apply, apply_or_reset, replace};

#[derive(Debug, Clone)]
pub struct TestConfig {
    pub runtime_only: String,
    pub foo: u16,
    pub bar: Option<u16>,
    pub init_me: bool,
}

impl TestConfig {
    pub(crate) fn new(override_conf: TestOverrideConfig, init_me: bool) -> Self {
        Self {
            runtime_only: override_conf.runtime_only.clone(),
            foo: 1,
            bar: None,
            init_me: init_me,
        }
    }
    pub fn builder(override_conf: TestOverrideConfig, init_me: bool) -> TestConfigBuilder {
        <TestConfigBuilder>::new(override_conf, init_me)
    }
    pub fn runtime_only(&self) -> &str {
        self.runtime_only.as_str()
    }
    pub fn foo(&self) -> u16 {
        self.foo
    }
    pub fn bar(&self) -> Option<u16> {
        self.bar
    }
    pub fn init_me(&self) -> bool {
        self.init_me
    }
    pub fn merge_with_override(&mut self, override_conf: TestOverrideConfig) {
        let val = override_conf.runtime_only.clone();
        replace(&mut self.runtime_only, val);
        let val = override_conf.foo.clone();
        apply_or_reset(&mut self.foo, override_conf.foo_unset, val.map(|val| val), || 1);
        let val = override_conf.bar.clone();
        apply_or_reset(&mut self.bar, override_conf.bar_unset, val.map(|val| Some(val)), || None);
        let val = override_conf.init_me.clone();
        apply(&mut self.init_me, val.map(|val| val));
    }
}

impl std::ops::Add<TestOverrideConfig> for TestConfig {
    type Output = Self;
    fn add(self, other: TestOverrideConfig) -> Self {
        let mut merged = self;
        merged.merge_with_override(other);
        merged
    }
}

#[derive(Debug, Clone)]
pub struct TestConfigBuilder {
    pub(crate) staged: Staged<TestConfig, TestOverrideConfig>,
}

impl TestConfigBuilder {
    pub fn new(override_conf: TestOverrideConfig, init_me: bool) -> Self {
        let initial_override = Some(override_conf.clone());
        Self {
            staged: Staged::new(<TestConfig>::new(override_conf, init_me), initial_override),
        }
    }
    pub fn foo(mut self, val: u16) -> Self {
        self.staged.inner.foo = val;
        self
    }
    pub fn bar(mut self, val: Option<u16>) -> Self {
        self.staged.inner.bar = val;
        self
    }
    pub fn init_me(mut self, val: bool) -> Self {
        self.staged.inner.init_me = val;
        self
    }
    pub fn build(self) -> TestConfig {
        self.staged.build(|inner, override_conf| inner + override_conf)
    }
}

#[derive(Debug, Clone)]
pub struct TestOverrideConfig {
    pub runtime_only: String,
    pub foo: Option<u16>,
    pub foo_unset: bool,
    pub bar: Option<u16>,
    pub bar_unset: bool,
    pub init_me: Option<bool>,
}

#[test]
fn serde_optional_main() {
    let override_config = TestOverrideConfig {
        runtime_only: "hunter2".to_string(),
        foo: Some(50),
        bar: Some(10),
        init_me: None,

        foo_unset: true,
        bar_unset: false,
    };
    let config = TestConfig::builder(override_config, true)
        .foo(90)
        .bar(None)
        .build();
    assert_eq!(config.runtime_only(), "hunter2");
    assert_eq!(config.foo(), 1);
    assert_eq!(config.bar(), Some(10));
    assert_eq!(config.init_me(), true);
}
