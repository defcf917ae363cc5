# SCL3

The decisions of the SCL3 Minecraft launcher, verified with Verus, and the program
around them.

- `src/` is the library. It holds what the launcher decides: what the configuration
  means, which account is in use and where its secret goes, how the window follows the
  user, and what is asked of the network, the disk and the credential store. Each
  function states what it returns or changes; the `law_` functions state what holds
  across several of them.
- `app/` is the program: the window, the configuration file, the credential store and the
  launcher core, which does the logins, the downloads and the start of the game.
- `tests/` runs the library.

The library works on plain values. `window::AppWindow` stands for the window; the program
reads the window into it, lets the library change it, and writes back what changed. What
the library wants done outside, it returns: an entry of the credential store, a picture to
cache, a file to download. `launch::Launch` goes through a launch one outcome at a time.
