pub mod mihomo;
